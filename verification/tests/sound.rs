use rustyboy::bus::{Readable, Writable};
use rustyboy::sound::channels::channel1::Channel1;
use rustyboy::sound::channels::noise_channel::NoiseChannel;
use rustyboy::sound::frequency_register::FrequencyRegister;
use rustyboy::sound::sweep_register::{SweepModifier, SweepRegister};
use rustyboy::sound::volume_envelope::{Direction, VolumeEnvelope};
use rustyboy::sound::wave_duty_register::{WaveDutyRegister, WaveDutyRegisterClockResult};

#[test]
fn period_is_2048_more_than_the_frequency() {
    let register = FrequencyRegister { low_register: 0x34, high_register: 0xFA };
    assert_eq!(register.period(), 2048 + 0x234);
    assert_eq!(FrequencyRegister::default().period(), 2048);
    let register = FrequencyRegister { low_register: 0xFF, high_register: 0x07 };
    assert_eq!(register.period(), 4095);
}

#[test]
fn frequency_control_bits() {
    let register = FrequencyRegister { low_register: 0, high_register: 0x40 };
    assert!(register.is_finite());
    assert!(!register.is_triggered());
    let register = FrequencyRegister { low_register: 0, high_register: 0x80 };
    assert!(!register.is_finite());
    assert!(register.is_triggered());
}

#[test]
fn sweep_register_fields() {
    let mut register = SweepRegister::default();
    register.register = 0b0101_1011;
    assert_eq!(register.sweep_pace(), 5);
    assert_eq!(register.sweep_modifier(), SweepModifier::Increase);
    assert_eq!(register.sweep_step(), 3);
    register.set_register(0b1111_0111);
    assert_eq!(register.register(), 0b1111_0111);
    assert_eq!(register.sweep_pace(), 7);
    assert_eq!(register.sweep_modifier(), SweepModifier::Decrease);
    assert_eq!(register.sweep_step(), 7);
}

#[test]
fn sweep_clock_keeps_the_register() {
    let mut register = SweepRegister::default();
    register.register = 0x19;
    for _ in 0..9 {
        register.clock();
    }
    register.apply_sweep();
    assert_eq!(register.register, 0x19);
}

#[test]
fn envelope_fields() {
    let mut envelope = VolumeEnvelope::default();
    envelope.register = 0b1010_1011;
    assert_eq!(envelope.initial_volume(), 10);
    assert_eq!(envelope.direction(), Direction::Up);
    assert_eq!(envelope.envelope_sweep(), 3);
    assert_eq!(envelope.current_volume(), 10);
    envelope.register = 0b0011_0000;
    assert_eq!(envelope.direction(), Direction::Down);
    assert_eq!(envelope.envelope_sweep(), 0);
}

#[test]
fn envelope_steps_after_eight_clocks_times_the_sweep() {
    let mut envelope = VolumeEnvelope::default();
    envelope.register = 0b0101_1010;
    for _ in 0..15 {
        envelope.clock();
    }
    assert_eq!(envelope.current_volume(), 5);
    envelope.clock();
    assert_eq!(envelope.current_volume(), 6);
    for _ in 0..16 {
        envelope.clock();
    }
    assert_eq!(envelope.current_volume(), 7);
    envelope.register = 0b0101_0001;
    for _ in 0..8 {
        envelope.clock();
    }
    assert_eq!(envelope.current_volume(), 6);
}

#[test]
fn envelope_with_sweep_zero_stands_still() {
    let mut envelope = VolumeEnvelope::default();
    envelope.register = 0b0101_1000;
    for _ in 0..100 {
        envelope.clock();
    }
    assert_eq!(envelope.current_volume(), 5);
}

#[test]
fn volume_stays_within_a_byte() {
    let mut envelope = VolumeEnvelope::default();
    envelope.register = 0b0001_0001;
    for _ in 0..8 * 300 {
        envelope.clock();
    }
    assert_eq!(envelope.current_volume(), 0);
    envelope.register = 0b1111_1001;
    for _ in 0..8 * 300 {
        envelope.clock();
    }
    assert_eq!(envelope.current_volume(), 15 + 127);
    envelope.apply_envelope();
    assert_eq!(envelope.current_volume(), 15 + 127);
}

#[test]
fn length_timer_stops_at_128() {
    let mut register = WaveDutyRegister::default();
    register.register = 0b1011_1110;
    assert_eq!(register.initial_timer_value(), 62);
    assert_eq!(register.clock(), WaveDutyRegisterClockResult::Running);
    for _ in 0..65 {
        assert_eq!(register.clock(), WaveDutyRegisterClockResult::Running);
    }
    assert_eq!(register.clock(), WaveDutyRegisterClockResult::Stop);
    assert_eq!(register.clock(), WaveDutyRegisterClockResult::Running);
    register.set_register(0x12);
    assert_eq!(register.register(), 0x12);
}

#[test]
fn noise_channel_registers() {
    let mut channel = NoiseChannel::default();
    channel.write(0xFF20, 0x11);
    channel.write(0xFF21, 0x22);
    channel.write(0xFF22, 0x33);
    channel.write(0xFF23, 0x44);
    channel.write(0xFF24, 0x55);
    assert_eq!(channel.read(0xFF20), 0x11);
    assert_eq!(channel.read(0xFF21), 0x22);
    assert_eq!(channel.read(0xFF22), 0x33);
    assert_eq!(channel.read(0xFF23), 0xFF);
    assert_eq!(channel.read(0xFF24), 0xFF);
    assert_eq!(channel.read(0x0000), 0xFF);
    assert_eq!(channel.sound_length, 0x11);
    assert_eq!(channel.volume_envelope.register, 0x22);
}

#[test]
fn noise_channel_shift() {
    let mut channel = NoiseChannel::default();
    assert!(!channel.is_long_mode());
    channel.shift_register = 0b0000_0111;
    channel.shift_with(true);
    assert_eq!(channel.shift_register, 0b0000_0001);
    channel.shift_register = 0b0000_0111;
    channel.shift_with(false);
    assert_eq!(channel.shift_register, 0);
    channel.frequency_randomness_register = 0b0000_1000;
    assert!(channel.is_long_mode());
    channel.shift_register = 0b0000_0110;
    channel.shift_with(true);
    assert_eq!(channel.shift_register, 0b1000_0001);
    channel.shift_register = 0b0000_0011;
    channel.shift_with(true);
    assert_eq!(channel.shift_register, 0b0000_0001);
    channel.shift_register = 0b0000_0110;
    channel.shift();
    assert!(channel.shift_register == 0b1000_0001 || channel.shift_register == 0b1000_0000);
    assert_eq!(channel.frequency_randomness_register, 0b0000_1000);
}

#[test]
fn channel1_registers() {
    let mut channel = Channel1::default();
    channel.write(0xFF10, 0x11);
    channel.write(0xFF11, 0x22);
    channel.write(0xFF12, 0x33);
    channel.write(0xFF13, 0x44);
    channel.write(0xFF14, 0x55);
    channel.write(0xFF15, 0x66);
    assert_eq!(channel.read(0xFF10), 0x11);
    assert_eq!(channel.read(0xFF11), 0x22);
    assert_eq!(channel.read(0xFF12), 0x33);
    assert_eq!(channel.read(0xFF13), 0xFF);
    assert_eq!(channel.read(0xFF14), 0x55);
    assert_eq!(channel.read(0xFF15), 0xFF);
    channel.clock();
    assert_eq!(channel.read(0xFF10), 0x11);
    assert_eq!(channel.read(0xFF12), 0x33);
}

#[test]
fn sound_unit_routes_by_address() {
    let mut sound = rustyboy::sound::Sound::default();
    for (address, value) in [
        (0xFF10u16, 0x01u8),
        (0xFF12, 0x02),
        (0xFF16, 0x03),
        (0xFF17, 0x04),
        (0xFF19, 0x05),
        (0xFF1A, 0x06),
        (0xFF1C, 0x07),
        (0xFF1E, 0x08),
        (0xFF20, 0x09),
        (0xFF22, 0x0A),
        (0xFF25, 0x0B),
        (0xFF30, 0x0C),
        (0xFF3F, 0x0D),
    ] {
        sound.write(address, value);
        assert_eq!(sound.read(address), value, "address {:#06X}", address);
    }
    assert_eq!(sound.read(0xFF10), 0x01);
    assert_eq!(sound.read(0xFF30), 0x0C);
    for address in [0xFF13u16, 0xFF15, 0xFF18, 0xFF1D, 0xFF1F, 0xFF23, 0xFF24, 0xFF26, 0xFF2F, 0xFF40, 0x0000] {
        sound.write(address, 0x55);
        assert_eq!(sound.read(address), 0xFF, "address {:#06X}", address);
    }
    assert_eq!(sound.channel2.frequency_register.low_register, 0x55);
    assert_eq!(sound.wave_channel.frequency_register.low_register, 0x55);
    assert_eq!(sound.output_register.register, 0x0B);
}

#[test]
fn sound_unit_remembers_the_divider() {
    let mut sound = rustyboy::sound::Sound::default();
    sound.clock(0x10);
    assert_eq!(sound.last_divider, 0x10);
    sound.clock(0x0F);
    assert_eq!(sound.last_divider, 0x0F);
    assert!(!sound.sound_enabled);
}
