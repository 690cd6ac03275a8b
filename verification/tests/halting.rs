use emu6502::CpuError;
use emu6502::CPU;

#[test]
fn test_fresh_processor_terminates() {
    let mut cpu = CPU::new();
    assert!(cpu.run_terminates());
    assert_eq!(cpu.run(), Ok(()));
    assert_eq!(cpu.program_counter, 0x0001);
}

#[test]
fn test_loaded_program_terminates() {
    let mut cpu = CPU::new();
    assert_eq!(cpu.load(vec![0xa9, 0xc0, 0xaa, 0xe8, 0x00]), Ok(()));
    cpu.reset();
    assert!(cpu.run_terminates());
    // Asking changes nothing.
    assert_eq!(cpu.program_counter, 0x8000);
    assert_eq!(cpu.register_a, 0);
    assert_eq!(cpu.register_x, 0);
    assert_eq!(cpu.status, 0);
    assert_eq!(cpu.run(), Ok(()));
    assert_eq!(cpu.register_x, 0xc1);
}

#[test]
fn test_undefined_opcode_terminates() {
    let mut cpu = CPU::new();
    assert_eq!(cpu.load(vec![0xe8, 0x02]), Ok(()));
    cpu.reset();
    assert!(cpu.run_terminates());
    assert_eq!(cpu.run(), Err(CpuError::UnknownOpcode(0x02)));
    assert_eq!(cpu.register_x, 1);
}

#[test]
fn test_memory_without_stop_never_terminates() {
    let mut cpu = CPU::new();
    assert_eq!(cpu.load_program(&vec![0xe8; 0x10000], 0x0000), Ok(()));
    assert!(!cpu.run_terminates());
    cpu.program_counter = 0x8000;
    assert!(!cpu.run_terminates());
}

#[test]
fn test_endless_run_is_not_started() {
    let mut cpu = CPU::new();
    assert_eq!(cpu.load_program(&vec![0xe8; 0x10000], 0x0000), Ok(()));
    cpu.register_a = 0x0a;
    cpu.register_x = 0x0b;
    cpu.register_y = 0x0c;
    cpu.status = 0x0d;
    cpu.program_counter = 0x1234;
    assert_eq!(cpu.run(), Err(CpuError::NeverHalts));

    assert_eq!(cpu.register_a, 0x0a);
    assert_eq!(cpu.register_x, 0x0b);
    assert_eq!(cpu.register_y, 0x0c);
    assert_eq!(cpu.status, 0x0d);
    assert_eq!(cpu.program_counter, 0x1234);
}

#[test]
fn test_load_and_run_endless_program() {
    // Page zero to 0x7fff is filled with increments, and so is the program
    // but for the two bytes of the reset vector, which a load steps over.
    let mut cpu = CPU::new();
    assert_eq!(cpu.load_program(&vec![0xe8; 0x8000], 0x0000), Ok(()));
    let mut program = vec![0xe8; 0x8000];
    program[0x7ffb] = 0xad;
    cpu.register_y = 0x77;
    assert_eq!(cpu.load_and_run(program), Err(CpuError::NeverHalts));

    // The program was loaded and the processor reset; no cycle was run.
    assert_eq!(cpu.mem_read(0x8000), 0xe8);
    assert_eq!(cpu.mem_read_u16(0xfffc), 0x8000);
    assert_eq!(cpu.program_counter, 0x8000);
    assert_eq!(cpu.register_a, 0);
    assert_eq!(cpu.register_x, 0);
    assert_eq!(cpu.register_y, 0x77);
    assert_eq!(cpu.status, 0);
}

#[test]
fn test_stop_hidden_in_operands_never_terminates() {
    // Every opcode is an immediate load whose operand is the halt byte, so
    // the run steps over each halt byte and goes round for ever.
    let mut image = Vec::new();
    for _ in 0..0x8000 {
        image.push(0xa9);
        image.push(0x00);
    }
    let mut cpu = CPU::new();
    assert_eq!(cpu.load_program(&image, 0x0000), Ok(()));
    assert!(!cpu.run_terminates());
    // Started on an operand instead, the first fetch is the halt byte.
    cpu.program_counter = 0x0001;
    assert!(cpu.run_terminates());
    assert_eq!(cpu.run(), Ok(()));
    assert_eq!(cpu.program_counter, 0x0002);
}

#[test]
fn test_run_wraps_round_the_address_space() {
    let mut cpu = CPU::new();
    cpu.mem_write(0xfffe, 0xe8);
    cpu.mem_write(0xffff, 0xe8);
    cpu.program_counter = 0xfffe;
    assert!(cpu.run_terminates());
    assert_eq!(cpu.run(), Ok(()));
    assert_eq!(cpu.register_x, 2);
    assert_eq!(cpu.program_counter, 0x0001);
}

#[test]
fn test_single_stop_at_far_end_is_found() {
    let mut image = vec![0xe8; 0x10000];
    image[0x1233] = 0x00;
    let mut cpu = CPU::new();
    assert_eq!(cpu.load_program(&image, 0x0000), Ok(()));
    cpu.program_counter = 0x1234;
    assert!(cpu.run_terminates());
    assert_eq!(cpu.run(), Ok(()));
    // 0xffff increments, modulo 256.
    assert_eq!(cpu.register_x, 0xff);
    assert_eq!(cpu.program_counter, 0x1234);
}
