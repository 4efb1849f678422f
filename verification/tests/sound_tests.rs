use gb_core::sound::noise::NoiseChannel;
use gb_core::sound::pulse::PulseChannel;
use gb_core::sound::pulsesweep::PulseSweepChannel;
use gb_core::sound::wave::WaveChannel;
use gb_core::sound::{Apu, SAMPLE_RATE};

fn run_channel(channel: &mut PulseSweepChannel, cycles: u32) {
    for _ in 0..cycles {
        channel.single_step();
    }
}

fn run_apu(apu: &mut Apu, cycles: u32) {
    let mut left = cycles;
    while left > 0 {
        let chunk = if left > 255 { 255 } else { left };
        apu.step(chunk as u8);
        left -= chunk;
    }
}

#[test]
fn plain_channels_store_their_registers() {
    let mut pulse = PulseChannel::new();
    let mut noise = NoiseChannel::new();
    for i in 0..4u16 {
        assert_eq!(pulse.read_byte(0xff16 + i), 0);
        assert_eq!(noise.read_byte(0xff20 + i), 0);
        pulse.write_byte(0xff16 + i, 0x10 + i as u8);
        noise.write_byte(0xff20 + i, 0x20 + i as u8);
    }
    for i in 0..4u16 {
        assert_eq!(pulse.read_byte(0xff16 + i), 0x10 + i as u8);
        assert_eq!(noise.read_byte(0xff20 + i), 0x20 + i as u8);
    }
    pulse.write_byte(0xff15, 0x99);
    noise.write_byte(0xff24, 0x99);
    assert_eq!(pulse.read_byte(0xff15), 0xff);
    assert_eq!(noise.read_byte(0xff24), 0xff);
    assert_eq!(pulse.read_byte(0xff16), 0x10);
}

#[test]
fn wave_channel_stores_registers_and_pattern() {
    let mut wave = WaveChannel::new();
    for i in 0..5u16 {
        wave.write_byte(0xff1a + i, 0x30 + i as u8);
    }
    for i in 0..16u16 {
        wave.write_byte(0xff30 + i, 0x40 + i as u8);
    }
    for i in 0..5u16 {
        assert_eq!(wave.read_byte(0xff1a + i), 0x30 + i as u8);
    }
    for i in 0..16u16 {
        assert_eq!(wave.read_byte(0xff30 + i), 0x40 + i as u8);
    }
    assert_eq!(wave.read_byte(0xff1f), 0xff);
    assert_eq!(wave.read_byte(0xff40), 0xff);
}

#[test]
fn pulse_sweep_registers_read_back() {
    let mut c = PulseSweepChannel::new();
    c.write_byte(0xff10, 0x11);
    c.write_byte(0xff11, 0x22);
    c.write_byte(0xff12, 0x33);
    c.write_byte(0xff13, 0x44);
    c.write_byte(0xff14, 0x05);
    assert_eq!(c.read_byte(0xff10), 0x11);
    assert_eq!(c.read_byte(0xff11), 0x22);
    assert_eq!(c.read_byte(0xff12), 0x33);
    assert_eq!(c.read_byte(0xff13), 0x44);
    assert_eq!(c.read_byte(0xff14), 0x05);
    assert_eq!(c.read_byte(0xff15), 0xff);
}

#[test]
fn silent_until_triggered() {
    let mut c = PulseSweepChannel::new();
    c.write_byte(0xff12, 0xf0);
    run_channel(&mut c, 10);
    assert_eq!(c.get_volume(), 0);
    c.write_byte(0xff14, 0x80);
    assert_eq!(c.get_volume(), 15);
}

#[test]
fn duty_pointer_advances_every_period() {
    let mut c = PulseSweepChannel::new();
    c.write_byte(0xff11, 0x00);
    c.write_byte(0xff12, 0xf0);
    c.write_byte(0xff13, 0xff);
    c.write_byte(0xff14, 0x87);
    assert_eq!(c.get_volume(), 0);
    run_channel(&mut c, 1);
    assert_eq!(c.get_volume(), 15);
    run_channel(&mut c, 5 * 6);
    assert_eq!(c.get_volume(), 15);
    run_channel(&mut c, 5);
    assert_eq!(c.get_volume(), 0);
    run_channel(&mut c, 5);
    assert_eq!(c.get_volume(), 15);
}

#[test]
fn envelope_lowers_the_volume() {
    let mut c = PulseSweepChannel::new();
    c.write_byte(0xff12, 0xf1);
    c.write_byte(0xff13, 0xff);
    c.write_byte(0xff14, 0x87);
    run_channel(&mut c, 65535);
    assert_eq!(c.get_volume(), 15);
    run_channel(&mut c, 1);
    assert_eq!(c.get_volume(), 14);
}

#[test]
fn envelope_stops_at_the_top() {
    let mut c = PulseSweepChannel::new();
    c.write_byte(0xff12, 0xe9);
    c.write_byte(0xff13, 0xff);
    c.write_byte(0xff14, 0x87);
    run_channel(&mut c, 65536);
    assert_eq!(c.get_volume(), 15);
    let mut seen = 0;
    for _ in 0..(65536 * 3) {
        c.single_step();
        if c.get_volume() > seen {
            seen = c.get_volume();
        }
    }
    assert_eq!(seen, 15);
}

#[test]
fn length_counter_silences_the_channel() {
    let mut c = PulseSweepChannel::new();
    c.write_byte(0xff11, 0x02);
    c.write_byte(0xff12, 0xf0);
    c.write_byte(0xff13, 0xff);
    c.write_byte(0xff14, 0xc7);
    run_channel(&mut c, 24575);
    let mut loud = false;
    for _ in 0..40 {
        if c.get_volume() == 15 {
            loud = true;
        }
        c.single_step();
    }
    assert!(loud);
    for _ in 0..100 {
        assert_eq!(c.get_volume(), 0);
        c.single_step();
    }
}

#[test]
fn sweep_raises_the_frequency_then_silences() {
    let mut c = PulseSweepChannel::new();
    c.write_byte(0xff10, 0x11);
    c.write_byte(0xff12, 0xf0);
    c.write_byte(0xff13, 0x00);
    c.write_byte(0xff14, 0x84);
    run_channel(&mut c, 7 * 65536 + 57344 - 1);
    assert_eq!(c.read_byte(0xff13), 0x00);
    assert_eq!(c.read_byte(0xff14), 0x84);
    run_channel(&mut c, 1);
    assert_eq!(c.read_byte(0xff13), 0x00);
    assert_eq!(c.read_byte(0xff14), 0x86);
    run_channel(&mut c, 8 * 65536);
    assert_eq!(c.read_byte(0xff14), 0x86);
    for _ in 0..100 {
        assert_eq!(c.get_volume(), 0);
        c.single_step();
    }
}

#[test]
fn one_stereo_frame_every_95_cycles() {
    let mut apu = Apu::new();
    run_apu(&mut apu, 94);
    assert_eq!(apu.audio_buffer().len(), 0);
    run_apu(&mut apu, 1);
    assert_eq!(apu.audio_buffer(), vec![0u8, 0]);
    assert_eq!(apu.audio_buffer().len(), 0);
    apu.write_byte(0xff12, 0xf0);
    apu.write_byte(0xff14, 0x80);
    run_apu(&mut apu, 95 * 3);
    assert_eq!(apu.audio_buffer(), vec![15u8, 15, 15, 15, 15, 15]);
}

#[test]
fn buffer_is_dropped_after_one_second() {
    let mut apu = Apu::new();
    run_apu(&mut apu, 95 * 44_099);
    assert_eq!(apu.audio_buffer().len(), 88_198);
    run_apu(&mut apu, 95 * 44_099);
    run_apu(&mut apu, 95);
    assert_eq!(apu.audio_buffer().len(), 0);
    assert_eq!(SAMPLE_RATE, 44_100);
}

#[test]
fn apu_routes_registers_to_channels() {
    let mut apu = Apu::new();
    let addrs: Vec<u16> = (0xff10..=0xff14)
        .chain(0xff16..=0xff19)
        .chain(0xff1a..=0xff1e)
        .chain(0xff20..=0xff26)
        .chain(0xff30..=0xff3f)
        .collect();
    for (i, addr) in addrs.iter().enumerate() {
        apu.write_byte(*addr, i as u8 + 1);
    }
    for (i, addr) in addrs.iter().enumerate() {
        assert_eq!(apu.read_byte(*addr), i as u8 + 1);
    }
    apu.write_byte(0xff15, 7);
    apu.write_byte(0xff1f, 7);
    assert_eq!(apu.read_byte(0xff15), 0xff);
    assert_eq!(apu.read_byte(0xff1f), 0xff);
    assert_eq!(apu.read_byte(0xff27), 0xff);
}
