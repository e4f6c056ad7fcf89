use rustyboy::bus::{Bus, Readable, Writable};
use rustyboy::processor::execution::{Place, Processor, ProcessorError, Resolved};
use rustyboy::processor::instruction::Mnemonic;
use rustyboy::processor::register::Register;
use rustyboy::processor::registers::RegisterType;

#[derive(Clone)]
struct Ram {
    bytes: Vec<u8>,
}

impl Readable for Ram {
    fn byte_at(&self, address: u16) -> u8 {
        self.bytes[address as usize]
    }

    fn read(&self, address: u16) -> u8 {
        self.bytes[address as usize]
    }
}

impl Writable for Ram {
    fn after_write(&self, address: u16, value: u8) -> Self {
        let mut written = self.clone();
        written.bytes[address as usize] = value;
        written
    }

    fn write(&mut self, address: u16, value: u8) {
        self.bytes[address as usize] = value;
    }
}

impl Bus for Ram {}

fn machine(program: &[u8]) -> (Processor, Ram) {
    let mut bytes = vec![0u8; 0x10000];
    bytes[0x100..0x100 + program.len()].copy_from_slice(program);
    (Processor::new(), Ram { bytes })
}

fn reg(processor: &Processor, register: RegisterType) -> u16 {
    processor.registers.reg(register)
}

#[test]
fn power_on_registers() {
    let processor = Processor::new();
    assert_eq!(reg(&processor, RegisterType::AF), 0x01B0);
    assert_eq!(reg(&processor, RegisterType::BC), 0x0013);
    assert_eq!(reg(&processor, RegisterType::DE), 0x00D8);
    assert_eq!(reg(&processor, RegisterType::HL), 0x014D);
    assert_eq!(reg(&processor, RegisterType::SP), 0xFFFE);
    assert_eq!(reg(&processor, RegisterType::PC), 0x0100);
    assert!(!processor.halted && !processor.stopped && !processor.interrupts_enabled);
}

#[test]
fn nop_takes_one_cycle_and_one_byte() {
    let (mut processor, mut bus) = machine(&[0x00]);
    assert_eq!(processor.step(&mut bus), Ok(1));
    assert_eq!(reg(&processor, RegisterType::PC), 0x0101);
    assert_eq!(reg(&processor, RegisterType::AF), 0x01B0);
}

#[test]
fn illegal_opcode_fails_the_step() {
    for opcode in [0xD3u8, 0xDB, 0xDD, 0xE3, 0xE4, 0xEB, 0xEC, 0xED, 0xF4, 0xFC, 0xFD] {
        let (mut processor, mut bus) = machine(&[opcode]);
        assert_eq!(
            processor.step(&mut bus),
            Err(ProcessorError::IllegalOpcode { opcode, address: 0x0100 })
        );
        assert_eq!(reg(&processor, RegisterType::PC), 0x0101);
        assert_eq!(reg(&processor, RegisterType::SP), 0xFFFE);
    }
}

#[test]
fn every_legal_opcode_steps() {
    for opcode in 0..=255u8 {
        let (mut processor, mut bus) = machine(&[opcode, 0x12, 0x34]);
        let result = processor.step(&mut bus);
        let illegal = [0xD3u8, 0xDB, 0xDD, 0xE3, 0xE4, 0xEB, 0xEC, 0xED, 0xF4, 0xFC, 0xFD];
        assert_eq!(result.is_err(), illegal.contains(&opcode), "opcode {:#04X}", opcode);
        let (mut processor, mut bus) = machine(&[0xCB, opcode]);
        assert!(processor.step(&mut bus).is_ok(), "opcode CB {:#04X}", opcode);
        assert_eq!(reg(&processor, RegisterType::PC), 0x0102);
    }
}

#[test]
fn load_immediate_byte() {
    let (mut processor, mut bus) = machine(&[0x06, 0x42]);
    assert_eq!(processor.step(&mut bus), Ok(2));
    assert_eq!(reg(&processor, RegisterType::B), 0x42);
    assert_eq!(reg(&processor, RegisterType::BC), 0x4213);
    assert_eq!(reg(&processor, RegisterType::PC), 0x0102);
}

#[test]
fn load_immediate_word_is_little_endian() {
    let (mut processor, mut bus) = machine(&[0x21, 0x34, 0x12]);
    assert_eq!(processor.step(&mut bus), Ok(3));
    assert_eq!(reg(&processor, RegisterType::HL), 0x1234);
    assert_eq!(reg(&processor, RegisterType::PC), 0x0103);
}

#[test]
fn load_to_and_from_memory() {
    let (mut processor, mut bus) = machine(&[0x21, 0x00, 0xC0, 0x36, 0x5A, 0x7E, 0x22, 0x3A]);
    processor.step(&mut bus).unwrap();
    assert_eq!(processor.step(&mut bus), Ok(3));
    assert_eq!(bus.bytes[0xC000], 0x5A);
    assert_eq!(processor.step(&mut bus), Ok(2));
    assert_eq!(reg(&processor, RegisterType::A), 0x5A);
    assert_eq!(processor.step(&mut bus), Ok(2));
    assert_eq!(reg(&processor, RegisterType::HL), 0xC001);
    assert_eq!(processor.step(&mut bus), Ok(2));
    assert_eq!(reg(&processor, RegisterType::HL), 0xC000);
    assert_eq!(reg(&processor, RegisterType::A), 0x00);
}

#[test]
fn load_through_the_high_page() {
    let (mut processor, mut bus) = machine(&[0xE0, 0x80, 0x0E, 0x81, 0xE2, 0xF0, 0x81]);
    assert_eq!(processor.step(&mut bus), Ok(3));
    assert_eq!(bus.bytes[0xFF80], 0x01);
    processor.step(&mut bus).unwrap();
    assert_eq!(processor.step(&mut bus), Ok(2));
    assert_eq!(bus.bytes[0xFF81], 0x01);
    bus.bytes[0xFF81] = 0x99;
    assert_eq!(processor.step(&mut bus), Ok(3));
    assert_eq!(reg(&processor, RegisterType::A), 0x99);
}

#[test]
fn store_stack_pointer_takes_two_bytes() {
    let (mut processor, mut bus) = machine(&[0x08, 0x00, 0xC0]);
    assert_eq!(processor.step(&mut bus), Ok(5));
    assert_eq!(bus.bytes[0xC000], 0xFE);
    assert_eq!(bus.bytes[0xC001], 0xFF);
    assert_eq!(reg(&processor, RegisterType::PC), 0x0103);
}

#[test]
fn add_sets_the_flags() {
    let (mut processor, mut bus) = machine(&[0x3E, 0x0F, 0xC6, 0x01, 0xC6, 0xF0]);
    processor.step(&mut bus).unwrap();
    assert_eq!(processor.step(&mut bus), Ok(2));
    assert_eq!(reg(&processor, RegisterType::A), 0x10);
    assert_eq!(reg(&processor, RegisterType::F), 0x20);
    processor.step(&mut bus).unwrap();
    assert_eq!(reg(&processor, RegisterType::A), 0x00);
    assert_eq!(reg(&processor, RegisterType::F), 0x90);
}

#[test]
fn adc_and_sbc_use_the_carry() {
    let (mut processor, mut bus) = machine(&[0x3E, 0xFF, 0xC6, 0x01, 0xCE, 0x01, 0xDE, 0x03]);
    processor.step(&mut bus).unwrap();
    processor.step(&mut bus).unwrap();
    assert_eq!(reg(&processor, RegisterType::AF), 0x00B0);
    processor.step(&mut bus).unwrap();
    assert_eq!(reg(&processor, RegisterType::AF), 0x0200);
    processor.step(&mut bus).unwrap();
    assert_eq!(reg(&processor, RegisterType::AF), 0xFF70);
}

#[test]
fn sub_and_cp() {
    let (mut processor, mut bus) = machine(&[0x3E, 0x10, 0xFE, 0x10, 0xD6, 0x01]);
    processor.step(&mut bus).unwrap();
    processor.step(&mut bus).unwrap();
    assert_eq!(reg(&processor, RegisterType::AF), 0x10C0);
    processor.step(&mut bus).unwrap();
    assert_eq!(reg(&processor, RegisterType::AF), 0x0F60);
}

#[test]
fn logic_instructions() {
    let (mut processor, mut bus) = machine(&[0x3E, 0b1100, 0xE6, 0b1010, 0xF6, 0b0001, 0xEE, 0b1001]);
    processor.step(&mut bus).unwrap();
    processor.step(&mut bus).unwrap();
    assert_eq!(reg(&processor, RegisterType::AF), 0x0820);
    processor.step(&mut bus).unwrap();
    assert_eq!(reg(&processor, RegisterType::AF), 0x0900);
    processor.step(&mut bus).unwrap();
    assert_eq!(reg(&processor, RegisterType::AF), 0x0080);
}

#[test]
fn increment_and_decrement() {
    let (mut processor, mut bus) = machine(&[0x3E, 0xFF, 0x3C, 0x3D, 0x03, 0x0B, 0x34, 0x35]);
    processor.step(&mut bus).unwrap();
    assert_eq!(processor.step(&mut bus), Ok(1));
    assert_eq!(reg(&processor, RegisterType::AF), 0x00B0);
    processor.step(&mut bus).unwrap();
    assert_eq!(reg(&processor, RegisterType::AF), 0xFF70);
    assert_eq!(processor.step(&mut bus), Ok(2));
    assert_eq!(reg(&processor, RegisterType::BC), 0x0014);
    assert_eq!(reg(&processor, RegisterType::F), 0x70);
    processor.step(&mut bus).unwrap();
    assert_eq!(reg(&processor, RegisterType::BC), 0x0013);
    bus.bytes[0x014D] = 0x0F;
    assert_eq!(processor.step(&mut bus), Ok(3));
    assert_eq!(bus.bytes[0x014D], 0x10);
    assert_eq!(reg(&processor, RegisterType::F), 0x30);
    processor.step(&mut bus).unwrap();
    assert_eq!(bus.bytes[0x014D], 0x0F);
    assert_eq!(reg(&processor, RegisterType::F), 0x70);
}

#[test]
fn wide_additions() {
    let (mut processor, mut bus) = machine(&[0x21, 0xFF, 0x0F, 0x01, 0x01, 0x00, 0x09, 0xE8, 0x02, 0xF8, 0xFF]);
    processor.step(&mut bus).unwrap();
    processor.step(&mut bus).unwrap();
    assert_eq!(processor.step(&mut bus), Ok(2));
    assert_eq!(reg(&processor, RegisterType::HL), 0x1000);
    assert_eq!(reg(&processor, RegisterType::F), 0xA0);
    assert_eq!(processor.step(&mut bus), Ok(4));
    assert_eq!(reg(&processor, RegisterType::SP), 0x0000);
    assert_eq!(reg(&processor, RegisterType::F), 0x30);
    assert_eq!(processor.step(&mut bus), Ok(3));
    assert_eq!(reg(&processor, RegisterType::HL), 0xFFFF);
    assert_eq!(reg(&processor, RegisterType::F), 0x00);
}

#[test]
fn decimal_adjust() {
    let (mut processor, mut bus) = machine(&[0x3E, 0x45, 0xC6, 0x38, 0x27, 0xD6, 0x38, 0x27]);
    processor.step(&mut bus).unwrap();
    processor.step(&mut bus).unwrap();
    assert_eq!(reg(&processor, RegisterType::A), 0x7D);
    assert_eq!(processor.step(&mut bus), Ok(1));
    assert_eq!(reg(&processor, RegisterType::AF), 0x8300);
    processor.step(&mut bus).unwrap();
    assert_eq!(reg(&processor, RegisterType::A), 0x4B);
    processor.step(&mut bus).unwrap();
    assert_eq!(reg(&processor, RegisterType::AF), 0x4540);
}

#[test]
fn complement_and_carry_flag() {
    let (mut processor, mut bus) = machine(&[0x2F, 0x37, 0x3F, 0x3F]);
    processor.step(&mut bus).unwrap();
    assert_eq!(reg(&processor, RegisterType::AF), 0xFEF0);
    processor.step(&mut bus).unwrap();
    assert_eq!(reg(&processor, RegisterType::F), 0x90);
    processor.step(&mut bus).unwrap();
    assert_eq!(reg(&processor, RegisterType::F), 0x80);
    processor.step(&mut bus).unwrap();
    assert_eq!(reg(&processor, RegisterType::F), 0x90);
}

#[test]
fn rotations_of_the_accumulator_clear_zero() {
    let (mut processor, mut bus) = machine(&[0x3E, 0x80, 0x07, 0x17, 0x0F, 0x1F]);
    processor.step(&mut bus).unwrap();
    processor.step(&mut bus).unwrap();
    assert_eq!(reg(&processor, RegisterType::AF), 0x0110);
    processor.step(&mut bus).unwrap();
    assert_eq!(reg(&processor, RegisterType::AF), 0x0300);
    processor.step(&mut bus).unwrap();
    assert_eq!(reg(&processor, RegisterType::AF), 0x8110);
    processor.step(&mut bus).unwrap();
    assert_eq!(reg(&processor, RegisterType::AF), 0xC010);
}

#[test]
fn prefixed_rotations_and_bits() {
    let (mut processor, mut bus) = machine(&[
        0x06, 0x80, 0xCB, 0x00, 0xCB, 0x20, 0xCB, 0x30, 0xCB, 0x40, 0xCB, 0xC0, 0xCB, 0x40, 0xCB,
        0x80, 0xCB, 0xFE, 0xCB, 0x7E,
    ]);
    processor.step(&mut bus).unwrap();
    assert_eq!(processor.step(&mut bus), Ok(2));
    assert_eq!(reg(&processor, RegisterType::B), 0x01);
    assert_eq!(reg(&processor, RegisterType::F), 0x10);
    assert_eq!(reg(&processor, RegisterType::PC), 0x0104);
    processor.step(&mut bus).unwrap();
    assert_eq!(reg(&processor, RegisterType::B), 0x02);
    assert_eq!(reg(&processor, RegisterType::F), 0x00);
    processor.step(&mut bus).unwrap();
    assert_eq!(reg(&processor, RegisterType::B), 0x20);
    processor.step(&mut bus).unwrap();
    assert_eq!(reg(&processor, RegisterType::F), 0xA0);
    processor.step(&mut bus).unwrap();
    assert_eq!(reg(&processor, RegisterType::B), 0x21);
    processor.step(&mut bus).unwrap();
    assert_eq!(reg(&processor, RegisterType::F), 0x20);
    processor.step(&mut bus).unwrap();
    assert_eq!(reg(&processor, RegisterType::B), 0x20);
    assert_eq!(processor.step(&mut bus), Ok(4));
    assert_eq!(bus.bytes[0x014D], 0x80);
    assert_eq!(processor.step(&mut bus), Ok(3));
    assert_eq!(reg(&processor, RegisterType::F), 0x20);
}

#[test]
fn shifts() {
    let (mut processor, mut bus) = machine(&[0x06, 0x81, 0xCB, 0x28, 0xCB, 0x38, 0xCB, 0x38]);
    processor.step(&mut bus).unwrap();
    processor.step(&mut bus).unwrap();
    assert_eq!(reg(&processor, RegisterType::B), 0xC0);
    assert_eq!(reg(&processor, RegisterType::F), 0x10);
    processor.step(&mut bus).unwrap();
    assert_eq!(reg(&processor, RegisterType::B), 0x60);
    assert_eq!(reg(&processor, RegisterType::F), 0x00);
}

#[test]
fn jumps() {
    let (mut processor, mut bus) = machine(&[0xC3, 0x00, 0x02]);
    assert_eq!(processor.step(&mut bus), Ok(4));
    assert_eq!(reg(&processor, RegisterType::PC), 0x0200);
    let (mut processor, mut bus) = machine(&[0x18, 0xFE]);
    assert_eq!(processor.step(&mut bus), Ok(3));
    assert_eq!(reg(&processor, RegisterType::PC), 0x0100);
    let (mut processor, mut bus) = machine(&[0x18, 0x05]);
    processor.step(&mut bus).unwrap();
    assert_eq!(reg(&processor, RegisterType::PC), 0x0107);
    let (mut processor, mut bus) = machine(&[0xE9]);
    assert_eq!(processor.step(&mut bus), Ok(1));
    assert_eq!(reg(&processor, RegisterType::PC), 0x014D);
}

#[test]
fn a_branch_taken_takes_longer() {
    let (mut processor, mut bus) = machine(&[0x28, 0x10]);
    assert_eq!(processor.step(&mut bus), Ok(3));
    assert_eq!(reg(&processor, RegisterType::PC), 0x0112);
    let (mut processor, mut bus) = machine(&[0x20, 0x10]);
    assert_eq!(processor.step(&mut bus), Ok(2));
    assert_eq!(reg(&processor, RegisterType::PC), 0x0102);
    let (mut processor, mut bus) = machine(&[0xDA, 0x00, 0x02]);
    assert_eq!(processor.step(&mut bus), Ok(4));
    assert_eq!(reg(&processor, RegisterType::PC), 0x0200);
    let (mut processor, mut bus) = machine(&[0xD2, 0x00, 0x02]);
    assert_eq!(processor.step(&mut bus), Ok(3));
    assert_eq!(reg(&processor, RegisterType::PC), 0x0103);
    let (mut processor, mut bus) = machine(&[0xCC, 0x00, 0x02]);
    assert_eq!(processor.step(&mut bus), Ok(6));
    let (mut processor, mut bus) = machine(&[0xC4, 0x00, 0x02]);
    assert_eq!(processor.step(&mut bus), Ok(3));
    assert_eq!(reg(&processor, RegisterType::SP), 0xFFFE);
    let (mut processor, mut bus) = machine(&[0xC8]);
    assert_eq!(processor.step(&mut bus), Ok(5));
    let (mut processor, mut bus) = machine(&[0xC0]);
    assert_eq!(processor.step(&mut bus), Ok(2));
    assert_eq!(reg(&processor, RegisterType::PC), 0x0101);
}

#[test]
fn call_and_return() {
    let (mut processor, mut bus) = machine(&[0xCD, 0x00, 0x02]);
    bus.bytes[0x0200] = 0xC9;
    assert_eq!(processor.step(&mut bus), Ok(6));
    assert_eq!(reg(&processor, RegisterType::PC), 0x0200);
    assert_eq!(reg(&processor, RegisterType::SP), 0xFFFC);
    assert_eq!(bus.bytes[0xFFFC], 0x03);
    assert_eq!(bus.bytes[0xFFFD], 0x01);
    assert_eq!(processor.step(&mut bus), Ok(4));
    assert_eq!(reg(&processor, RegisterType::PC), 0x0103);
    assert_eq!(reg(&processor, RegisterType::SP), 0xFFFE);
}

#[test]
fn restart_and_return_from_interrupt() {
    let (mut processor, mut bus) = machine(&[0xEF]);
    bus.bytes[0x0028] = 0xD9;
    assert_eq!(processor.step(&mut bus), Ok(4));
    assert_eq!(reg(&processor, RegisterType::PC), 0x0028);
    assert_eq!(processor.step(&mut bus), Ok(4));
    assert_eq!(reg(&processor, RegisterType::PC), 0x0101);
    assert!(processor.interrupts_enabled);
}

#[test]
fn push_and_pop() {
    let (mut processor, mut bus) = machine(&[0xC5, 0xD1, 0xF5, 0x01, 0xFF, 0xFF, 0xC5, 0xF1]);
    assert_eq!(processor.step(&mut bus), Ok(4));
    assert_eq!(reg(&processor, RegisterType::SP), 0xFFFC);
    assert_eq!(bus.bytes[0xFFFD], 0x00);
    assert_eq!(bus.bytes[0xFFFC], 0x13);
    assert_eq!(processor.step(&mut bus), Ok(3));
    assert_eq!(reg(&processor, RegisterType::DE), 0x0013);
    assert_eq!(reg(&processor, RegisterType::SP), 0xFFFE);
    processor.step(&mut bus).unwrap();
    processor.step(&mut bus).unwrap();
    processor.step(&mut bus).unwrap();
    processor.step(&mut bus).unwrap();
    assert_eq!(reg(&processor, RegisterType::AF), 0xFFF0);
}

#[test]
fn signals() {
    let (mut processor, mut bus) = machine(&[0xFB, 0xF3, 0x76, 0x10]);
    processor.step(&mut bus).unwrap();
    assert!(processor.interrupts_enabled);
    processor.step(&mut bus).unwrap();
    assert!(!processor.interrupts_enabled);
    processor.step(&mut bus).unwrap();
    assert!(processor.halted);
    processor.step(&mut bus).unwrap();
    assert!(processor.stopped);
}

#[test]
fn program_counter_wraps_while_fetching() {
    let mut bytes = vec![0u8; 0x10000];
    bytes[0xFFFF] = 0x01;
    bytes[0x0000] = 0x34;
    bytes[0x0001] = 0x12;
    let mut bus = Ram { bytes };
    let mut processor = Processor::new();
    processor.registers.program_counter.set(0xFFFF);
    assert_eq!(processor.step(&mut bus), Ok(3));
    assert_eq!(reg(&processor, RegisterType::BC), 0x1234);
    assert_eq!(reg(&processor, RegisterType::PC), 0x0002);
}

#[test]
fn execute_rejects_operands_that_do_not_fit() {
    let (mut processor, mut bus) = machine(&[]);
    assert_eq!(
        processor.execute(&mut bus, Mnemonic::NOP, Some(Resolved::Condition(true)), None),
        Err(ProcessorError::MalformedInstruction)
    );
    assert_eq!(
        processor.execute(&mut bus, Mnemonic::CB, None, None),
        Err(ProcessorError::MalformedInstruction)
    );
    assert_eq!(
        processor.execute(&mut bus, Mnemonic::POP, Some(Resolved::Place(Place::Memory(0))), None),
        Err(ProcessorError::MalformedInstruction)
    );
    assert_eq!(
        processor.execute(
            &mut bus,
            Mnemonic::ADD,
            Some(Resolved::Place(Place::Register(RegisterType::B))),
            Some(Resolved::Value { number: 1, wide: false }),
        ),
        Err(ProcessorError::MalformedInstruction)
    );
    assert_eq!(reg(&processor, RegisterType::AF), 0x01B0);
    assert_eq!(reg(&processor, RegisterType::PC), 0x0100);
}

#[test]
fn places_are_read_and_written() {
    let (mut processor, mut bus) = machine(&[]);
    processor.write_place(&mut bus, Place::Memory(0xC000), 0xABCD, true);
    assert_eq!(bus.bytes[0xC000], 0xCD);
    assert_eq!(bus.bytes[0xC001], 0xAB);
    processor.write_place(&mut bus, Place::Memory(0xC002), 0xABCD, false);
    assert_eq!(bus.bytes[0xC002], 0xCD);
    assert_eq!(bus.bytes[0xC003], 0x00);
    processor.write_place(&mut bus, Place::Register(RegisterType::DE), 0xABCD, true);
    assert_eq!(processor.read_place(&bus, Place::Register(RegisterType::DE)), 0xABCD);
    assert_eq!(processor.read_place(&bus, Place::Register(RegisterType::E)), 0xCD);
    assert_eq!(processor.read_place(&bus, Place::Memory(0xC001)), 0xAB);
    processor.push(&mut bus, 0x1234);
    assert_eq!(processor.pop(&bus), 0x1234);
}
