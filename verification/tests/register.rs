use rustyboy::processor::register::{DualRegister, Register, SingleRegister};

#[test]
fn get_high() {
    let mut register = DualRegister::new();
    register.set(0b1010101001010101);
    assert_eq!(register.high.get(), 0b10101010);
}

#[test]
fn get_low() {
    let mut register = DualRegister::new();
    register.set(0b1010101001010101);
    assert_eq!(register.low.get(), 0b01010101);
}

#[test]
fn set_high() {
    let mut register = DualRegister::new();
    register.high.set(0b01010101);
    assert_eq!(register.high.get(), 0b01010101);
}

#[test]
fn set_low() {
    let mut register = DualRegister::new();
    register.low.set(0b01010101);
    assert_eq!(register.low.get(), 0b01010101);
}

#[test]
fn set() {
    let mut register = SingleRegister::new();
    register.set(0b10101010);
    register.set_bit(1, false);
    assert_eq!(register.get(), 0b10101000);
}

#[test]
fn single_register_wraps_after_256_increments() {
    for start in [0u16, 1, 0x7F, 0x80, 0xFE, 0xFF] {
        let mut register = SingleRegister::new();
        register.set(start);
        for _ in 0..256 {
            register.increment();
        }
        assert_eq!(register.get(), start);
    }
}

#[test]
fn single_register_increment_of_ff_is_zero() {
    let mut register = SingleRegister::new();
    register.set(0xFF);
    register.increment();
    assert_eq!(register.get(), 0x00);
}

#[test]
fn dual_register_from_round_trips() {
    for value in [0u16, 1, 0x00FF, 0x0100, 0x1234, 0x8000, 0xFFFF] {
        assert_eq!(DualRegister::from(value).get(), value);
    }
    let register = DualRegister::from(0x1234);
    assert_eq!(register.high.get(), 0x12);
    assert_eq!(register.low.get(), 0x34);
}

#[test]
fn dual_register_wraps_in_both_directions() {
    let mut register = DualRegister::from(0xFFFF);
    register.increment();
    assert_eq!(register.get(), 0);
    register.decrement();
    assert_eq!(register.get(), 0xFFFF);
    let mut register = DualRegister::from(0x00FF);
    register.increment();
    assert_eq!(register.high.get(), 0x01);
    assert_eq!(register.low.get(), 0x00);
}

#[test]
fn single_register_decrement_wraps() {
    let mut register = SingleRegister::new();
    register.decrement();
    assert_eq!(register.get(), 0xFF);
    assert_eq!(register.byte(), 0xFF);
}

#[test]
fn single_register_keeps_the_low_byte() {
    let mut register = SingleRegister::new();
    register.set(0x1234);
    assert_eq!(register.get(), 0x34);
}

#[test]
fn get_bit_counts_from_the_top() {
    let mut register = SingleRegister::new();
    register.set(0b1000_0001);
    assert!(register.get_bit(0));
    assert!(!register.get_bit(1));
    assert!(!register.get_bit(6));
    assert!(register.get_bit(7));
}

#[test]
fn set_bit_counts_from_the_bottom() {
    let mut register = SingleRegister::new();
    register.set_bit(0, true);
    assert_eq!(register.get(), 0b0000_0001);
    register.set_bit(7, true);
    assert_eq!(register.get(), 0b1000_0001);
    register.set_bit(0, false);
    assert_eq!(register.get(), 0b1000_0000);
}

#[test]
fn of_bytes_holds_both_bytes() {
    let register = DualRegister::of_bytes(0xAB, 0xCD);
    assert_eq!(register.get(), 0xABCD);
}
