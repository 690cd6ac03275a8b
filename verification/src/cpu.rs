//! The processor: registers, status flags and memory, with the operations
//! that read and change them one at a time.

use crate::addressing::effective_address;
use crate::addressing::AddressingMode;
use crate::error::CpuError;
use crate::flags::lemma_flag_rule;
use crate::flags::negative_flag;
use crate::flags::other_flags;
use crate::flags::with_zero_negative;
use crate::flags::zero_flag;
use crate::flags::NEGATIVE_FLAG;
use crate::flags::ZERO_FLAG;
use crate::memory::lemma_store_word_round_trip;
use crate::memory::store_bytes;
use crate::memory::store_word;
use crate::memory::word;
use crate::memory::word_at;
use crate::memory::zeroed;
use crate::memory::ADDRESS_SPACE;
use crate::memory::PROGRAM_BASE;
use crate::memory::RESET_VECTOR;
use crate::wrap::add16;
use crate::wrap::add8;
use crate::wrap::wrap8;
use vstd::prelude::*;

verus! {

/// The processor with its memory. Registers and memory may be read and set
/// freely between runs.
#[derive(Debug)]
pub struct CPU {
    /// The accumulator.
    pub register_a: u8,
    /// Index register X.
    pub register_x: u8,
    /// Index register Y.
    pub register_y: u8,
    /// The status register; the `flags` module names its bits.
    pub status: u8,
    /// Address of the next byte to fetch.
    pub program_counter: u16,
    /// The whole address space, one byte per address.
    pub memory: [u8; ADDRESS_SPACE],
}

/// The processor as a mathematical value: what the contracts speak of.
pub struct CpuState {
    /// The accumulator.
    pub a: u8,
    /// Index register X.
    pub x: u8,
    /// Index register Y.
    pub y: u8,
    /// The status register.
    pub status: u8,
    /// The program counter.
    pub pc: u16,
    /// Memory, one byte per address: a sequence of `ADDRESS_SPACE` bytes.
    pub mem: Seq<u8>,
}

impl View for CPU {
    type V = CpuState;

    open spec fn view(&self) -> CpuState {
        CpuState {
            a: self.register_a,
            x: self.register_x,
            y: self.register_y,
            status: self.status,
            pc: self.program_counter,
            mem: self.memory@,
        }
    }
}

/// The processor after `load` of a program: the program lies at
/// `PROGRAM_BASE` and the reset vector points there. A program that reaches
/// the reset vector is overwritten by it. Where the program does not fit,
/// nothing has changed.
pub open spec fn load_state(s: CpuState, program: Seq<u8>) -> CpuState {
    if PROGRAM_BASE + program.len() <= ADDRESS_SPACE {
        CpuState {
            mem: store_word(
                store_bytes(s.mem, PROGRAM_BASE, program),
                RESET_VECTOR,
                PROGRAM_BASE,
            ),
            ..s
        }
    } else {
        s
    }
}

/// The processor after `reset`: accumulator, register X and status are
/// zero, the program counter is the word at the reset vector; register Y and
/// memory are as they were.
pub open spec fn reset_state(s: CpuState) -> CpuState {
    CpuState { a: 0, x: 0, status: 0, pc: word_at(s.mem, RESET_VECTOR), ..s }
}

/// The processor after `LDA` with the given addressing mode: the
/// accumulator holds the byte at the effective address and the flags follow
/// it. With `NonAddressing` nothing changes.
pub open spec fn lda_state(s: CpuState, mode: AddressingMode) -> CpuState {
    match effective_address(mode, s.pc, s.x, s.y, s.mem) {
        Some(addr) => CpuState {
            a: s.mem[addr as int],
            status: with_zero_negative(s.status, s.mem[addr as int]),
            ..s
        },
        None => s,
    }
}

/// The processor after `TAX`: register X holds the accumulator's byte and
/// the flags follow it.
pub open spec fn tax_state(s: CpuState) -> CpuState {
    CpuState { x: s.a, status: with_zero_negative(s.status, s.a), ..s }
}

/// The processor after `INX`: register X is one more, modulo 256, and the
/// flags follow it.
pub open spec fn inx_state(s: CpuState) -> CpuState {
    CpuState {
        x: wrap8(s.x + 1),
        status: with_zero_negative(s.status, wrap8(s.x + 1)),
        ..s
    }
}

/// `TAX` after `LDA`: whatever byte `v` the load put into the accumulator,
/// register X then holds `v`, and the flags are those of `v`: Zero exactly
/// when `v` is zero, Negative exactly when `v` is at least `0x80`.
pub proof fn lemma_tax_after_lda(s: CpuState, mode: AddressingMode)
    ensures
        ({
            let v = lda_state(s, mode).a;
            let t = tax_state(lda_state(s, mode));
            &&& t.x == v
            &&& t.a == v
            &&& zero_flag(t.status) <==> v == 0
            &&& negative_flag(t.status) <==> v >= 0x80
        }),
{
    let loaded = lda_state(s, mode);
    lemma_flag_rule(loaded.status, loaded.a);
}

/// The 16-bit value with low byte `lo` and high byte `hi`.
fn make_word(lo: u8, hi: u8) -> (value: u16)
    ensures
        value == word(lo, hi),
{
    let value: u16 = ((hi as u16) << 8) | (lo as u16);
    assert(((hi as u16) << 8) | (lo as u16) == lo + 256 * hi) by (bit_vector);
    value
}

impl CPU {
    /// A processor with every register and every byte of memory zero.
    pub fn new() -> (cpu: Self)
        ensures
            cpu@ == (CpuState { a: 0, x: 0, y: 0, status: 0, pc: 0, mem: zeroed() }),
    {
        let cpu = CPU {
            register_a: 0,
            register_x: 0,
            register_y: 0,
            status: 0,
            program_counter: 0,
            memory: [0; ADDRESS_SPACE],
        };
        assert(cpu.memory@ =~= zeroed());
        cpu
    }

    /// `LDA`: loads the accumulator from the operand that `mode` denotes and
    /// sets the Zero and Negative flags from the loaded byte: Zero exactly
    /// when it is zero, Negative exactly when it is at least `0x80`. The
    /// program counter stays where it is. With `NonAddressing` nothing
    /// changes and the fault is returned.
    pub fn lda(&mut self, mode: &AddressingMode) -> (r: Result<(), CpuError>)
        ensures
            final(self)@ == lda_state(old(self)@, *mode),
            r is Ok <==> *mode != AddressingMode::NonAddressing,
            r is Err ==> r == Err::<(), CpuError>(CpuError::NonAddressing),
            r is Ok ==> (zero_flag(final(self).status) <==> final(self).register_a == 0),
            r is Ok ==> (negative_flag(final(self).status) <==> final(self).register_a >= 0x80),
            other_flags(final(self).status) == other_flags(old(self).status),
    {
        match self.get_op_address(mode) {
            Ok(addr) => {
                let value: u8 = self.mem_read(addr);
                self.register_a = value;
                self.update_zero_and_negative_flags(self.register_a);
                Ok(())
            },
            Err(e) => Err(e),
        }
    }

    /// `INX`: adds one to register X, `0xFF` becoming `0x00`, and sets the
    /// Zero and Negative flags from the new X.
    pub fn inx(&mut self)
        ensures
            final(self)@ == inx_state(old(self)@),
            final(self).register_x == (old(self).register_x + 1) % 256,
            zero_flag(final(self).status) <==> final(self).register_x == 0,
            negative_flag(final(self).status) <==> final(self).register_x >= 0x80,
            old(self).register_x == 0xFF ==> final(self).register_x == 0 && zero_flag(
                final(self).status,
            ) && !negative_flag(final(self).status),
            other_flags(final(self).status) == other_flags(old(self).status),
    {
        self.register_x = add8(self.register_x, 1);
        self.update_zero_and_negative_flags(self.register_x);
    }

    /// `TAX`: copies the accumulator into register X and sets the Zero and
    /// Negative flags from the copied byte.
    pub fn tax(&mut self)
        ensures
            final(self)@ == tax_state(old(self)@),
            final(self).register_x == old(self).register_a,
            zero_flag(final(self).status) <==> old(self).register_a == 0,
            negative_flag(final(self).status) <==> old(self).register_a >= 0x80,
            other_flags(final(self).status) == other_flags(old(self).status),
    {
        self.register_x = self.register_a;
        self.update_zero_and_negative_flags(self.register_x);
    }

    /// The effective address that `mode` denotes for the instruction whose
    /// operand bytes start at the program counter. Reads memory and changes
    /// nothing. `NonAddressing` denotes no address: asking for it is a fault.
    pub fn get_op_address(&self, mode: &AddressingMode) -> (r: Result<u16, CpuError>)
        ensures
            r == match effective_address(
                *mode,
                self@.pc,
                self@.x,
                self@.y,
                self@.mem,
            ) {
                Some(addr) => Ok::<u16, CpuError>(addr),
                None => Err(CpuError::NonAddressing),
            },
            r is Ok <==> *mode != AddressingMode::NonAddressing,
    {
        match mode {
            AddressingMode::Immediate => Ok(self.program_counter),
            AddressingMode::ZeroPage => Ok(self.mem_read(self.program_counter) as u16),
            AddressingMode::Absolute => Ok(self.mem_read_u16(self.program_counter)),
            AddressingMode::ZeroPage_X => {
                let pos: u8 = self.mem_read(self.program_counter);
                Ok(add8(pos, self.register_x) as u16)
            },
            AddressingMode::ZeroPage_Y => {
                let pos: u8 = self.mem_read(self.program_counter);
                Ok(add8(pos, self.register_y) as u16)
            },
            AddressingMode::Absolute_X => {
                let base: u16 = self.mem_read_u16(self.program_counter);
                Ok(add16(base, self.register_x as u16))
            },
            AddressingMode::Absolute_Y => {
                let base: u16 = self.mem_read_u16(self.program_counter);
                Ok(add16(base, self.register_y as u16))
            },
            AddressingMode::Indirect_X => {
                let base: u8 = self.mem_read(self.program_counter);
                let ptr: u8 = add8(base, self.register_x);
                let lo: u8 = self.mem_read(ptr as u16);
                let hi: u8 = self.mem_read(add8(ptr, 1) as u16);
                Ok(make_word(lo, hi))
            },
            AddressingMode::Indirect_Y => {
                let base: u8 = self.mem_read(self.program_counter);
                let lo: u8 = self.mem_read(base as u16);
                let hi: u8 = self.mem_read(add8(base, 1) as u16);
                let deref_base: u16 = make_word(lo, hi);
                Ok(add16(deref_base, self.register_y as u16))
            },
            AddressingMode::NonAddressing => Err(CpuError::NonAddressing),
        }
    }

    /// The byte at `addr`.
    pub fn mem_read(&self, addr: u16) -> (value: u8)
        ensures
            value == self@.mem[addr as int],
    {
        self.memory[addr as usize]
    }

    /// The little-endian word at `addr`: low byte at `addr`, high byte at the
    /// next address, which for `0xFFFF` is `0x0000`.
    pub fn mem_read_u16(&self, addr: u16) -> (value: u16)
        ensures
            value == word_at(self@.mem, addr),
    {
        let lo: u8 = self.mem_read(addr);
        let hi: u8 = self.mem_read(add16(addr, 1));
        make_word(lo, hi)
    }

    /// Stores `value` at `addr`. Nothing else changes.
    pub fn mem_write(&mut self, addr: u16, value: u8)
        ensures
            final(self)@ == (CpuState {
                mem: old(self)@.mem.update(addr as int, value),
                ..old(self)@
            }),
    {
        self.memory[addr as usize] = value;
    }

    /// Stores `value` at `addr` as a little-endian word: low byte at `addr`,
    /// high byte at the next address, which for `0xFFFF` is `0x0000`.
    /// Nothing else changes, and the word then read at `addr` is `value`.
    pub fn mem_write_u16(&mut self, addr: u16, value: u16)
        ensures
            final(self)@ == (CpuState {
                mem: store_word(old(self)@.mem, addr, value),
                ..old(self)@
            }),
            word_at(final(self)@.mem, addr) == value,
    {
        let hi: u8 = (value >> 8) as u8;
        let lo: u8 = (value & 0xff) as u8;
        assert(value >> 8 == value / 256 && value & 0xff == value % 256) by (bit_vector);
        self.mem_write(addr, lo);
        self.mem_write(add16(addr, 1), hi);
        proof {
            lemma_store_word_round_trip(old(self)@.mem, addr, value);
        }
    }

    /// Clears the accumulator, register X and the status register, and sets
    /// the program counter to the word stored at the reset vector. Register
    /// Y and memory are left as they are.
    pub fn reset(&mut self)
        ensures
            final(self)@ == reset_state(old(self)@),
    {
        self.register_a = 0;
        self.register_x = 0;
        self.status = 0;
        self.program_counter = self.mem_read_u16(RESET_VECTOR);
    }

    /// Copies `bytes` into memory at the addresses `at`, `at + 1`, ... and
    /// changes nothing else. Where the bytes would reach past the end of the
    /// address space, nothing is copied and `OutOfBounds` is returned.
    pub fn load_program(&mut self, bytes: &[u8], at: u16) -> (r: Result<(), CpuError>)
        ensures
            r is Ok <==> at + bytes@.len() <= ADDRESS_SPACE,
            r is Ok ==> final(self)@ == (CpuState {
                mem: store_bytes(old(self)@.mem, at, bytes@),
                ..old(self)@
            }),
            r is Err ==> r == Err::<(), CpuError>(CpuError::OutOfBounds) && final(self)@ == old(
                self,
            )@,
    {
        let n: usize = bytes.len();
        let start: usize = at as usize;
        if n > ADDRESS_SPACE - start {
            return Err(CpuError::OutOfBounds);
        }
        let mut i: usize = 0;
        assert(self.memory@ =~= store_bytes(old(self)@.mem, at, bytes@.take(0)));
        while i < n
            invariant
                n == bytes@.len(),
                start == at,
                start + n <= ADDRESS_SPACE,
                i <= n,
                self@ == (CpuState {
                    mem: store_bytes(old(self)@.mem, at, bytes@.take(i as int)),
                    ..old(self)@
                }),
            decreases n - i,
        {
            self.memory[start + i] = bytes[i];
            i += 1;
            assert(self.memory@ =~= store_bytes(old(self)@.mem, at, bytes@.take(i as int)));
        }
        assert(bytes@.take(n as int) =~= bytes@);
        Ok(())
    }

    /// Stores `address` at the reset vector as a little-endian word, so that
    /// the next `reset` starts execution there. Nothing else changes.
    pub fn set_reset_vector(&mut self, address: u16)
        ensures
            final(self)@ == (CpuState {
                mem: store_word(old(self)@.mem, RESET_VECTOR, address),
                ..old(self)@
            }),
            word_at(final(self)@.mem, RESET_VECTOR) == address,
    {
        self.mem_write_u16(RESET_VECTOR, address);
    }

    /// Copies `program` to the load address `PROGRAM_BASE` and points the
    /// reset vector at it; registers and program counter are untouched. A
    /// program longer than the space from the load address to the end of
    /// memory is refused with `OutOfBounds`, and nothing changes.
    pub fn load(&mut self, program: Vec<u8>) -> (r: Result<(), CpuError>)
        ensures
            final(self)@ == load_state(old(self)@, program@),
            r is Ok <==> PROGRAM_BASE + program@.len() <= ADDRESS_SPACE,
            r is Err ==> r == Err::<(), CpuError>(CpuError::OutOfBounds),
            r is Ok ==> word_at(final(self)@.mem, RESET_VECTOR) == PROGRAM_BASE,
    {
        match self.load_program(program.as_slice(), PROGRAM_BASE) {
            Ok(()) => {
                self.set_reset_vector(PROGRAM_BASE);
                Ok(())
            },
            Err(e) => Err(e),
        }
    }

    /// Recomputes the Zero and Negative flags from `result`: Zero is set
    /// exactly when `result` is zero, Negative exactly when bit 7 of `result`
    /// is set. The six other bits of the status register, the registers and
    /// memory keep their values.
    pub fn update_zero_and_negative_flags(&mut self, result: u8)
        ensures
            final(self)@ == (CpuState {
                status: with_zero_negative(old(self)@.status, result),
                ..old(self)@
            }),
            zero_flag(final(self).status) <==> result == 0,
            negative_flag(final(self).status) <==> result >= 0x80,
            other_flags(final(self).status) == other_flags(old(self).status),
    {
        let ghost before = self.status;
        if result == 0 {
            self.status = self.status | ZERO_FLAG;
        } else {
            self.status = self.status & !ZERO_FLAG;
        }
        let ghost between = self.status;
        if result & NEGATIVE_FLAG != 0 {
            self.status = self.status | NEGATIVE_FLAG;
        } else {
            self.status = self.status & !NEGATIVE_FLAG;
        }
        proof {
            let after = self.status;
            assert(after == with_zero_negative(before, result)) by (bit_vector)
                requires
                    between == (if result == 0 {
                        before | ZERO_FLAG
                    } else {
                        before & !ZERO_FLAG
                    }),
                    after == (if result & NEGATIVE_FLAG != 0 {
                        between | NEGATIVE_FLAG
                    } else {
                        between & !NEGATIVE_FLAG
                    }),
            ;
            lemma_flag_rule(before, result);
        }
    }
}

} // verus!
