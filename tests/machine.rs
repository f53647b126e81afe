use yan85::constants::{Constants, RegisterConstants};
use yan85::emulator::Emulator;
use yan85::error::EmuError;
use yan85::instruction::Instruction;
use yan85::register::Register;
use yan85::storage::{Memory, Registers};
use yan85::syscall::{HostCall, Step, Syscall};

fn machine(program: Vec<Instruction>) -> Emulator {
    Emulator::new(Constants::default(), program, Memory::default()).unwrap()
}

fn sys(code: u8, result: Register) -> Instruction {
    Instruction::SYS(code, result)
}

#[test]
fn add_wraps_around() {
    let mut e = machine(vec![Instruction::ADD(Register::A, Register::B)]);
    e.registers.set(Register::A, 200);
    e.registers.set(Register::B, 100);
    assert_eq!(
        e.step(),
        Ok(Step::Executed(Instruction::ADD(Register::A, Register::B)))
    );
    assert_eq!(e.registers.get(Register::A), 44);
    assert_eq!(e.registers.get(Register::B), 100);
}

#[test]
fn cmp_exact_flag_bytes() {
    let f = Constants::default().flag;
    let cases = [
        (1u8, 2u8, f.L | f.N),
        (2, 1, f.G | f.N),
        (1, 1, f.E),
        (0, 0, f.E | f.Z),
        (0, 1, f.L | f.N),
    ];
    for (a, b, want) in cases {
        let mut e = machine(vec![Instruction::CMP(Register::A, Register::B)]);
        e.registers.set(Register::F, 0xff);
        e.registers.set(Register::A, a);
        e.registers.set(Register::B, b);
        e.step().unwrap();
        assert_eq!(e.registers.get(Register::F), want);
    }
}

#[test]
fn store_then_load_round_trip() {
    let mut e = machine(vec![
        Instruction::IMM(Register::A, 0x20),
        Instruction::IMM(Register::D, 42),
        Instruction::STM(Register::A, Register::D),
        Instruction::LDM(Register::B, Register::A),
    ]);
    for _ in 0..4 {
        e.step().unwrap();
    }
    assert_eq!(e.memory.read(0x20), 42);
    assert_eq!(e.registers.get(Register::B), 42);
}

#[test]
fn imm_leaves_other_registers() {
    let mut e = machine(vec![Instruction::IMM(Register::A, 42)]);
    e.step().unwrap();
    assert_eq!(e.registers.get(Register::A), 42);
    for r in [Register::B, Register::C, Register::D, Register::S, Register::F] {
        assert_eq!(e.registers.get(r), 0);
    }
    assert_eq!(e.registers.get(Register::I), 1);
}

#[test]
fn fetch_past_end_fails() {
    let mut e = machine(vec![]);
    assert_eq!(e.step(), Err(EmuError::ProgramCounterOutOfRange));
    assert_eq!(e.registers.get(Register::I), 0);
}

#[test]
fn push_at_top_overflows() {
    let mut e = machine(vec![Instruction::STK(Register::Absent, Register::A)]);
    e.registers.set(Register::S, 255);
    assert_eq!(e.step(), Err(EmuError::StackOverflow));
    assert_eq!(e.registers.get(Register::S), 255);
}

#[test]
fn pop_at_bottom_underflows() {
    let mut e = machine(vec![Instruction::STK(Register::A, Register::Absent)]);
    assert_eq!(e.step(), Err(EmuError::StackUnderflow));
    assert_eq!(e.registers.get(Register::S), 0);
}

#[test]
fn absent_operand_is_invalid() {
    let mut e = machine(vec![Instruction::IMM(Register::Absent, 1)]);
    assert_eq!(e.step(), Err(EmuError::InvalidOperand));
}

#[test]
fn unknown_syscall_is_unsupported() {
    let mut e = machine(vec![sys(0x80, Register::A)]);
    assert_eq!(e.step(), Err(EmuError::UnsupportedSyscall(0x80)));
}

#[test]
fn exit_halts_with_code() {
    let s = Constants::default().syscall;
    let mut e = machine(vec![sys(s.EXIT, Register::A), Instruction::IMM(Register::B, 7)]);
    assert_eq!(e.step(), Ok(Step::Halt(0)));
    assert_eq!(e.registers.get(Register::B), 0);
    assert_eq!(e.registers.get(Register::I), 1);
}

#[test]
fn open_of_missing_file_is_host_error() {
    let s = Constants::default().syscall;
    let mut e = machine(vec![sys(s.OPEN, Register::C)]);
    for (i, b) in b"/nonexistent".iter().enumerate() {
        e.memory.write(0x10 + i as u8, *b);
    }
    e.registers.set(Register::A, 0x10);
    let call = match e.step() {
        Ok(Step::Syscall(call)) => call,
        other => panic!("unexpected step: {:?}", other),
    };
    assert_eq!(
        call,
        HostCall::Open { path: b"/nonexistent".to_vec(), result: Register::C }
    );
    let answer = e.finish_open(Register::C, Err("No such file or directory".to_string()));
    assert_eq!(answer, Err(EmuError::HostIoError("No such file or directory".to_string())));
    assert_eq!(e.registers.get(Register::C), 0);
}

#[test]
fn open_stores_descriptor() {
    let mut e = machine(vec![]);
    assert_eq!(e.finish_open(Register::C, Ok(3)), Ok(()));
    assert_eq!(e.registers.get(Register::C), 3);
    assert_eq!(e.finish_open(Register::C, Ok(256)), Err(EmuError::FileDescriptorOverflow));
    assert_eq!(e.registers.get(Register::C), 3);
}

#[test]
fn read_memory_request_and_answer() {
    let s = Constants::default().syscall;
    let mut e = machine(vec![sys(s.READ_MEMORY, Register::D)]);
    e.registers.set(Register::A, 0);
    e.registers.set(Register::B, 0x30);
    e.registers.set(Register::C, 4);
    assert_eq!(
        e.step(),
        Ok(Step::Syscall(HostCall::ReadMemory {
            fd: 0,
            start: 0x30,
            count: 4,
            result: Register::D
        }))
    );
    assert_eq!(e.finish_read_memory(Register::D, 0x30, 4, Ok(vec![7, 8, 9])), Ok(()));
    assert_eq!(e.memory.read(0x30), 7);
    assert_eq!(e.memory.read(0x32), 9);
    assert_eq!(e.memory.read(0x33), 0);
    assert_eq!(e.registers.get(Register::D), 3);
    assert_eq!(
        e.finish_read_memory(Register::D, 0x30, 2, Ok(vec![1, 2, 3])),
        Err(EmuError::OutOfBounds)
    );
}

#[test]
fn read_memory_past_end_is_out_of_bounds() {
    let s = Constants::default().syscall;
    let mut e = machine(vec![sys(s.READ_MEMORY, Register::D)]);
    e.registers.set(Register::B, 0xf0);
    e.registers.set(Register::C, 0x20);
    assert_eq!(e.step(), Err(EmuError::OutOfBounds));
}

#[test]
fn write_request_carries_memory_bytes() {
    let s = Constants::default().syscall;
    let mut e = machine(vec![sys(s.WRITE, Register::D)]);
    e.memory.write(0x40, b'h');
    e.memory.write(0x41, b'i');
    e.registers.set(Register::A, 1);
    e.registers.set(Register::B, 0x40);
    e.registers.set(Register::C, 2);
    assert_eq!(
        e.step(),
        Ok(Step::Syscall(HostCall::Write { fd: 1, data: b"hi".to_vec(), result: Register::D }))
    );
    assert_eq!(e.finish_write(Register::D, Ok(2)), Ok(()));
    assert_eq!(e.registers.get(Register::D), 2);
    assert_eq!(
        e.finish_write(Register::D, Err("Broken pipe".to_string())),
        Err(EmuError::HostIoError("Broken pipe".to_string()))
    );
}

#[test]
fn sleep_and_read_code() {
    let s = Constants::default().syscall;
    let mut e = machine(vec![sys(s.SLEEP, Register::A), sys(s.READ_CODE, Register::B)]);
    e.registers.set(Register::A, 3);
    assert_eq!(
        e.step(),
        Ok(Step::Syscall(HostCall::Sleep { seconds: 3, result: Register::A }))
    );
    assert_eq!(e.finish_sleep(Register::A), Ok(()));
    assert_eq!(e.registers.get(Register::A), 0);
    e.registers.set(Register::B, 1);
    e.registers.set(Register::C, 6);
    assert_eq!(
        e.step(),
        Ok(Step::Syscall(HostCall::ReadCode { fd: 0, start: 1, count: 6, result: Register::B }))
    );
    let code = vec![Instruction::IMM(Register::D, 9), Instruction::IMM(Register::C, 8)];
    assert_eq!(e.finish_read_code(Register::B, 1, Ok(code)), Ok(()));
    assert_eq!(e.registers.get(Register::B), 2);
    assert_eq!(e.instructions.len(), 3);
    assert_eq!(e.instructions[1], Instruction::IMM(Register::D, 9));
    e.registers.set(Register::I, 1);
    e.step().unwrap();
    assert_eq!(e.registers.get(Register::D), 9);
    assert_eq!(
        e.finish_read_code(Register::B, 9, Ok(vec![])),
        Err(EmuError::OutOfBounds)
    );
    assert_eq!(
        e.finish_read_code(Register::B, 0, Err(EmuError::DecodeError)),
        Err(EmuError::DecodeError)
    );
}

fn bindings() -> RegisterConstants {
    Constants::default().register
}

#[test]
fn shared_register_bit_is_rejected() {
    let mut c = Constants::default();
    c.register = RegisterConstants { B: c.register.A, ..bindings() };
    assert!(!c.register.is_valid());
    assert_eq!(
        Emulator::new(c, vec![], Memory::default()).err(),
        Some(EmuError::DecodeError)
    );
}

#[test]
fn non_single_bit_binding_is_rejected() {
    let mut c = Constants::default();
    c.register = RegisterConstants { F: 0x03, ..bindings() };
    assert_eq!(
        Emulator::new(c, vec![], Memory::default()).err(),
        Some(EmuError::DecodeError)
    );
    c.register = RegisterConstants { F: 0x80, ..bindings() };
    assert!(Emulator::new(c, vec![], Memory::default()).is_ok());
}

#[test]
fn register_codes_and_slots() {
    assert_eq!(Register::try_from(0x40), Some(Register::A));
    assert_eq!(Register::try_from(0x02), Some(Register::F));
    assert_eq!(Register::try_from(0), Some(Register::Absent));
    assert_eq!(Register::try_from(0x03), None);
    assert_eq!(Register::A.to_index(), 6);
    assert_eq!(Register::S.to_index(), 0);
    assert_eq!(Register::F.to_index(), 1);
    assert_eq!(Register::C.name(), "c");
    assert_eq!(Register::Absent.name(), "NONE");
}

#[test]
fn syscall_codes_decode() {
    let s = Constants::default().syscall;
    assert_eq!(s.decode(s.WRITE), Some(Syscall::Write));
    assert_eq!(s.decode(s.EXIT), Some(Syscall::Exit));
    assert_eq!(s.decode(0x40), None);
}

#[test]
fn memory_ranges() {
    let mut m = Memory::new();
    assert_eq!(m.write_range(0xfe, &[1, 2]), Ok(()));
    assert_eq!(m.read_range(0xfe, 2), Ok(vec![1, 2]));
    assert_eq!(m.read_range(0xfe, 3), Err(EmuError::OutOfBounds));
    assert_eq!(m.write_range(0xff, &[1, 2]), Err(EmuError::OutOfBounds));
    assert_eq!(m.read(0xff), 2);
    m.write(0x10, b'a');
    assert_eq!(m.read_c_string(0x10), b"a".to_vec());
    assert_eq!(m.read_c_string(0xfe), vec![1, 2]);
    let r = Registers::new();
    assert_eq!(r.get(Register::D), 0);
}
