use emu6502::CpuError;
use emu6502::CPU;

#[test]
fn test_new_is_all_zero() {
    let cpu = CPU::new();
    assert_eq!(cpu.register_a, 0);
    assert_eq!(cpu.register_x, 0);
    assert_eq!(cpu.register_y, 0);
    assert_eq!(cpu.status, 0);
    assert_eq!(cpu.program_counter, 0);
    assert_eq!(cpu.memory.len(), 0x10000);
    assert!(cpu.memory.iter().all(|b| *b == 0));
}

#[test]
fn test_write_then_read_byte() {
    let mut cpu = CPU::new();
    cpu.mem_write(0x0000, 0x11);
    cpu.mem_write(0x1234, 0x22);
    cpu.mem_write(0xffff, 0x33);

    assert_eq!(cpu.mem_read(0x0000), 0x11);
    assert_eq!(cpu.mem_read(0x1234), 0x22);
    assert_eq!(cpu.mem_read(0xffff), 0x33);
    assert_eq!(cpu.mem_read(0x1235), 0x00);
}

#[test]
fn test_write_u16_is_little_endian() {
    let mut cpu = CPU::new();
    cpu.mem_write_u16(0x0200, 0xbeef);

    assert_eq!(cpu.mem_read(0x0200), 0xef);
    assert_eq!(cpu.mem_read(0x0201), 0xbe);
    assert_eq!(cpu.mem_read(0x01ff), 0x00);
    assert_eq!(cpu.mem_read(0x0202), 0x00);
}

#[test]
fn test_read_u16_is_little_endian() {
    let mut cpu = CPU::new();
    cpu.mem_write(0x0300, 0x34);
    cpu.mem_write(0x0301, 0x12);

    assert_eq!(cpu.mem_read_u16(0x0300), 0x1234);
}

#[test]
fn test_u16_round_trip() {
    let addresses = [0x0000u16, 0x00ff, 0x0100, 0x7fff, 0x8000, 0xfffc, 0xfffd];
    let values = [0x0000u16, 0x0001, 0x00ff, 0x0100, 0x1234, 0x8000, 0xff00, 0xffff];
    for addr in addresses {
        for value in values {
            let mut cpu = CPU::new();
            cpu.mem_write_u16(addr, value);
            assert_eq!(cpu.mem_read_u16(addr), value);
        }
    }
}

#[test]
fn test_u16_wraps_at_top_of_memory() {
    let mut cpu = CPU::new();
    cpu.mem_write_u16(0xffff, 0xa1b2);

    assert_eq!(cpu.mem_read(0xffff), 0xb2);
    assert_eq!(cpu.mem_read(0x0000), 0xa1);
    assert_eq!(cpu.mem_read_u16(0xffff), 0xa1b2);
}

#[test]
fn test_load_places_program_and_reset_vector() {
    let mut cpu = CPU::new();
    cpu.register_a = 1;
    cpu.register_x = 2;
    cpu.register_y = 3;
    cpu.status = 4;
    cpu.program_counter = 5;
    assert_eq!(cpu.load(vec![0x10, 0x20, 0x30]), Ok(()));

    assert_eq!(cpu.mem_read(0x7fff), 0x00);
    assert_eq!(cpu.mem_read(0x8000), 0x10);
    assert_eq!(cpu.mem_read(0x8001), 0x20);
    assert_eq!(cpu.mem_read(0x8002), 0x30);
    assert_eq!(cpu.mem_read(0x8003), 0x00);
    assert_eq!(cpu.mem_read(0xfffc), 0x00);
    assert_eq!(cpu.mem_read(0xfffd), 0x80);
    assert_eq!(cpu.mem_read_u16(0xfffc), 0x8000);
    // Registers and program counter are not touched.
    assert_eq!(cpu.register_a, 1);
    assert_eq!(cpu.register_x, 2);
    assert_eq!(cpu.register_y, 3);
    assert_eq!(cpu.status, 4);
    assert_eq!(cpu.program_counter, 5);
}

#[test]
fn test_load_longest_program() {
    let mut cpu = CPU::new();
    assert_eq!(cpu.load(vec![0xe8; 0x8000]), Ok(()));

    assert_eq!(cpu.mem_read(0x8000), 0xe8);
    assert_eq!(cpu.mem_read(0xfffb), 0xe8);
    // The reset vector is written over the program.
    assert_eq!(cpu.mem_read(0xfffc), 0x00);
    assert_eq!(cpu.mem_read(0xfffd), 0x80);
    assert_eq!(cpu.mem_read(0xfffe), 0xe8);
    assert_eq!(cpu.mem_read(0xffff), 0xe8);
    assert_eq!(cpu.mem_read(0x0000), 0x00);
}

#[test]
fn test_load_refuses_program_that_does_not_fit() {
    let mut cpu = CPU::new();
    cpu.mem_write(0x8000, 0x42);
    assert_eq!(cpu.load(vec![0xe8; 0x8001]), Err(CpuError::OutOfBounds));

    assert_eq!(cpu.mem_read(0x8000), 0x42);
    assert_eq!(cpu.mem_read(0x8001), 0x00);
    assert_eq!(cpu.mem_read(0xffff), 0x00);
    assert_eq!(cpu.mem_read_u16(0xfffc), 0x0000);
}

#[test]
fn test_load_program_at_address() {
    let mut cpu = CPU::new();
    assert_eq!(cpu.load_program(&[1, 2, 3], 0x0600), Ok(()));

    assert_eq!(cpu.mem_read(0x05ff), 0);
    assert_eq!(cpu.mem_read(0x0600), 1);
    assert_eq!(cpu.mem_read(0x0601), 2);
    assert_eq!(cpu.mem_read(0x0602), 3);
    assert_eq!(cpu.mem_read(0x0603), 0);
    // No reset vector is written by this operation.
    assert_eq!(cpu.mem_read_u16(0xfffc), 0x0000);
}

#[test]
fn test_load_program_up_to_last_address() {
    let mut cpu = CPU::new();
    assert_eq!(cpu.load_program(&[0xaa, 0xbb], 0xfffe), Ok(()));
    assert_eq!(cpu.mem_read(0xfffe), 0xaa);
    assert_eq!(cpu.mem_read(0xffff), 0xbb);

    assert_eq!(cpu.load_program(&[0xcc], 0xffff), Ok(()));
    assert_eq!(cpu.mem_read(0xffff), 0xcc);

    assert_eq!(cpu.load_program(&[], 0xffff), Ok(()));
    assert_eq!(cpu.mem_read(0xffff), 0xcc);
}

#[test]
fn test_load_program_refuses_overrun() {
    let mut cpu = CPU::new();
    assert_eq!(cpu.load_program(&[0xaa, 0xbb], 0xffff), Err(CpuError::OutOfBounds));
    // Nothing was copied, not even the byte that would have fitted.
    assert_eq!(cpu.mem_read(0xffff), 0x00);
    assert_eq!(cpu.mem_read(0x0000), 0x00);

    assert_eq!(cpu.load_program(&vec![0x01; 0x10001], 0x0000), Err(CpuError::OutOfBounds));
    assert_eq!(cpu.mem_read(0x0000), 0x00);
}

#[test]
fn test_load_program_whole_memory() {
    let mut cpu = CPU::new();
    assert_eq!(cpu.load_program(&vec![0x5a; 0x10000], 0x0000), Ok(()));
    assert_eq!(cpu.mem_read(0x0000), 0x5a);
    assert_eq!(cpu.mem_read(0xffff), 0x5a);
}

#[test]
fn test_set_reset_vector() {
    let mut cpu = CPU::new();
    cpu.set_reset_vector(0x1234);

    assert_eq!(cpu.mem_read(0xfffc), 0x34);
    assert_eq!(cpu.mem_read(0xfffd), 0x12);
    cpu.reset();
    assert_eq!(cpu.program_counter, 0x1234);
}

#[test]
fn test_reset_clears_a_x_status_only() {
    let mut cpu = CPU::new();
    cpu.mem_write(0x0042, 0x99);
    cpu.mem_write_u16(0xfffc, 0xc000);
    cpu.register_a = 0x11;
    cpu.register_x = 0x22;
    cpu.register_y = 0x33;
    cpu.status = 0xff;
    cpu.program_counter = 0x0777;
    cpu.reset();

    assert_eq!(cpu.register_a, 0);
    assert_eq!(cpu.register_x, 0);
    assert_eq!(cpu.status, 0);
    assert_eq!(cpu.program_counter, 0xc000);
    // Register Y and memory are left alone.
    assert_eq!(cpu.register_y, 0x33);
    assert_eq!(cpu.mem_read(0x0042), 0x99);
}
