pub mod channel1;
pub mod channel2;
pub mod noise_channel;
pub mod wave_channel;
