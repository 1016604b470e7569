use plastic::apu2a03::apu::{Register, APU2A03};
use plastic::apu2a03::dmc::Dmc;
use plastic::apu2a03::envelope::EnvelopeGenerator;
use plastic::apu2a03::length_counter::LengthCounter;
use plastic::apu2a03::noise::NoiseWave;
use plastic::apu2a03::square::SquarePulse;
use plastic::common::Device;
use plastic::apu2a03::sequencer::Sequencer;
use plastic::apu2a03::tone_source::{BufferedChannel, TimedAPUChannel, SAMPLES_PER_FRAME};
use plastic::apu2a03::triangle::TriangleWave;

#[test]
fn dmc_sample_address_and_length() {
    let mut dmc = Dmc::new();
    dmc.set_samples_address(1);
    assert_eq!(dmc.samples_address, 0xC040);
    dmc.set_samples_address(0xFF);
    assert_eq!(dmc.samples_address, 0xFFC0);
    dmc.set_samples_length(1);
    assert_eq!(dmc.samples_length, 17);
    dmc.set_rate_index(0x1F);
    assert_eq!(dmc.period, 27);
    dmc.set_direct_output_level_load(0xFF);
    assert_eq!(dmc.output_level(), 0x7F);
}

#[test]
fn dmc_reads_sample_and_raises_irq() {
    let mut dmc = Dmc::new();
    dmc.set_samples_address(0);
    dmc.set_samples_length(0);
    dmc.set_irq_enabled_flag(true);
    dmc.restart_sample();
    assert_eq!(dmc.request_dmc_reader_read(), Some(0xC000));
    dmc.submit_buffer_byte(0xAA);
    // the only byte was read: the IRQ is raised
    assert!(!dmc.sample_remaining_bytes_more_than_0());
    assert!(dmc.get_irq_pin_state());
    assert!(dmc.is_irq_change_requested());
    assert_eq!(dmc.request_dmc_reader_read(), None);
    dmc.clear_irq_request_pin();
    assert!(!dmc.is_irq_change_requested());
    dmc.clear_interrupt_flag();
    assert!(!dmc.get_irq_pin_state());
}

#[test]
fn dmc_loops_sample() {
    let mut dmc = Dmc::new();
    dmc.set_samples_address(2);
    dmc.set_samples_length(0);
    dmc.set_loop_flag(true);
    dmc.restart_sample();
    dmc.submit_buffer_byte(1);
    assert_eq!(dmc.samples_remaining_bytes_counter, 1);
    assert_eq!(dmc.samples_address_counter, 0xC080);
    assert!(!dmc.get_irq_pin_state());
}

#[test]
fn dmc_address_wraps() {
    let mut dmc = Dmc::new();
    dmc.samples_address_counter = 0xFFFF;
    dmc.samples_remaining_bytes_counter = 5;
    dmc.submit_buffer_byte(0);
    assert_eq!(dmc.samples_address_counter, 0x8000);
    assert_eq!(dmc.samples_remaining_bytes_counter, 4);
}

#[test]
fn dmc_output_unit_steps() {
    let mut dmc = Dmc::new();
    dmc.shifter_remaining_bits_counter = 8;
    dmc.set_direct_output_level_load(10);
    dmc.output_shift_register = 0b01;
    dmc.timer_clock();
    assert_eq!(dmc.output_level(), 12);
    dmc.timer_clock();
    assert_eq!(dmc.output_level(), 10);
    // the level stays within 0..=127
    dmc.set_direct_output_level_load(127);
    dmc.output_shift_register = 0xFF;
    dmc.timer_clock();
    assert_eq!(dmc.output_level(), 127);
    // the timer counts down from the period between steps
    dmc.period = 2;
    dmc.timer_clock();
    assert_eq!(dmc.current_timer, 2);
    dmc.timer_clock();
    assert_eq!(dmc.current_timer, 1);
}

#[test]
fn dmc_takes_next_byte_after_eight_bits() {
    let mut dmc = Dmc::new();
    dmc.shifter_remaining_bits_counter = 1;
    dmc.set_samples_length(1);
    dmc.restart_sample();
    dmc.submit_buffer_byte(0x0F);
    dmc.timer_clock();
    assert_eq!(dmc.shifter_remaining_bits_counter, 8);
    assert_eq!(dmc.output_shift_register, 0x0F);
    assert!(dmc.sample_buffer_empty);
    assert!(!dmc.output_silence_flag);
}

#[test]
fn sequencer_cycles() {
    let mut sequencer = Sequencer::new();
    assert_eq!(sequencer.get_current_value(), 0);
    sequencer.set_sequence(&[3, 5, 7]);
    assert_eq!(sequencer.get_current_value(), 3);
    sequencer.clock();
    sequencer.clock();
    assert_eq!(sequencer.get_current_value(), 7);
    sequencer.clock();
    assert_eq!(sequencer.get_current_value(), 3);
    sequencer.clock();
    sequencer.reset();
    assert_eq!(sequencer.get_current_value(), 3);
}

#[test]
fn triangle_steps_down_and_up() {
    let mut triangle = TriangleWave::new();
    triangle.set_period(2);
    assert_eq!(triangle.get_period(), 2);
    triangle.set_linear_counter_reload_value(3);
    triangle.set_linear_counter_reload_flag(true);
    triangle.clock_linear_counter();
    assert_eq!(triangle.output_level(), 15);
    // one step per period + 1 timer clocks
    triangle.timer_clock();
    assert_eq!(triangle.output_level(), 14);
    triangle.timer_clock();
    triangle.timer_clock();
    assert_eq!(triangle.output_level(), 14);
    triangle.timer_clock();
    assert_eq!(triangle.output_level(), 13);
}

#[test]
fn triangle_linear_counter() {
    let mut triangle = TriangleWave::new();
    triangle.set_period(100);
    triangle.set_linear_counter_reload_value(2);
    triangle.set_linear_counter_reload_flag(true);
    triangle.clock_linear_counter();
    assert_eq!(triangle.linear_counter, 2);
    // the control flag is clear: the reload flag is cleared
    assert!(!triangle.linear_counter_reload_flag);
    triangle.clock_linear_counter();
    triangle.clock_linear_counter();
    assert_eq!(triangle.linear_counter, 0);
    assert_eq!(triangle.output_level(), 0);
    triangle.clock_linear_counter();
    assert_eq!(triangle.linear_counter, 0);
    // with the control flag set the reload flag stays
    triangle.set_linear_counter_control_flag(true);
    triangle.set_linear_counter_reload_flag(true);
    triangle.clock_linear_counter();
    triangle.clock_linear_counter();
    assert_eq!(triangle.linear_counter, 2);
    assert!(triangle.linear_counter_reload_flag);
}

#[test]
fn triangle_mutes_ultrasonic_periods() {
    let mut triangle = TriangleWave::new();
    triangle.set_linear_counter_reload_value(5);
    triangle.set_linear_counter_reload_flag(true);
    triangle.clock_linear_counter();
    triangle.set_period(1);
    assert!(triangle.muted);
    assert_eq!(triangle.output_level(), 0);
}

#[test]
fn apu_status_reports_length_counters() {
    let mut apu = APU2A03::new();
    assert_eq!(apu.read_register(Register::Status), 0);
    // enable pulse 1, load length index 1 (254)
    apu.write_register(Register::Status, 0x01);
    apu.write_register(Register::Pulse1_4, 0x08);
    assert_eq!(apu.square_pulse_1.length_counter.counter(), 254);
    assert_eq!(apu.read_register(Register::Status), 0x01);
    // a disabled channel does not load
    apu.write_register(Register::Pulse2_4, 0x08);
    assert_eq!(apu.square_pulse_2.length_counter.counter(), 0);
    // disabling clears
    apu.write_register(Register::Status, 0x00);
    assert_eq!(apu.read_register(Register::Status), 0x00);
    assert_eq!(apu.read(0x4015, Device::CPU), 0x00);
    // the other registers read as 0
    assert_eq!(apu.read_register(Register::Pulse1_1), 0);
}

#[test]
fn apu_register_addresses() {
    assert_eq!(Register::from_address(0x4000), Some(Register::Pulse1_1));
    assert_eq!(Register::from_address(0x400B), Some(Register::Triangle4));
    assert_eq!(Register::from_address(0x4013), Some(Register::DMC4));
    assert_eq!(Register::from_address(0x4015), Some(Register::Status));
    assert_eq!(Register::from_address(0x4017), Some(Register::FrameCounter));
    assert_eq!(Register::from_address(0x4014), None);
    assert_eq!(Register::from_address(0x4016), None);
}

#[test]
fn apu_pulse_registers() {
    let mut apu = APU2A03::new();
    // duty 2, halt, constant volume 9
    apu.write(0x4000, 0b1011_1001, Device::CPU);
    let pulse = &apu.square_pulse_1;
    assert!(pulse.length_counter.halt);
    assert!(pulse.channel.envelope_generator.use_constant_volume);
    assert_eq!(pulse.channel.envelope_generator.divider_reload_value, 9);
    assert!(pulse.channel.envelope_generator.start_flag);
    // period 0x2AB
    apu.write(0x4002, 0xAB, Device::CPU);
    apu.write(0x4003, 0x02, Device::CPU);
    assert_eq!(apu.square_pulse_1.channel.get_period(), 0x2AB);
    assert!(!apu.square_pulse_1.channel.muted);
    // a period below 8 mutes
    apu.write(0x4002, 0x05, Device::CPU);
    apu.write(0x4003, 0x00, Device::CPU);
    assert!(apu.square_pulse_1.channel.muted);
    // sweep
    apu.write(0x4001, 0x9A, Device::CPU);
    assert!(apu.square_pulse_1.channel.sweeper.enabled);
    assert_eq!(apu.square_pulse_1.channel.sweeper.divider_period_reload_value, 1);
    assert!(apu.square_pulse_1.channel.sweeper.negative);
    assert_eq!(apu.square_pulse_1.channel.sweeper.shift_count, 2);
}

#[test]
fn apu_triangle_noise_and_dmc_registers() {
    let mut apu = APU2A03::new();
    apu.write_register(Register::Triangle1, 0x85);
    assert_eq!(apu.triangle.channel.linear_counter_reload_value, 5);
    assert!(apu.triangle.channel.linear_counter_control_flag);
    assert!(apu.triangle.length_counter.halt);
    apu.write_register(Register::Triangle3, 0x34);
    apu.write_register(Register::Triangle4, 0x01);
    assert_eq!(apu.triangle.channel.get_period(), 0x134);
    assert!(apu.triangle.channel.linear_counter_reload_flag);
    apu.write_register(Register::Noise3, 0x83);
    assert!(apu.noise.channel.mode_flag);
    assert_eq!(apu.noise.channel.get_period(), 32);
    apu.write_register(Register::DMC1, 0xCF);
    assert_eq!(apu.dmc.period, 27);
    assert!(apu.dmc.loop_flag);
    assert!(apu.dmc.irq_enabled_flag);
    apu.write_register(Register::DMC2, 0xFF);
    assert_eq!(apu.dmc.output_level(), 0x7F);
    apu.write_register(Register::DMC3, 0x10);
    assert_eq!(apu.dmc.samples_address, 0xC400);
    apu.write_register(Register::DMC4, 0x02);
    assert_eq!(apu.dmc.samples_length, 33);
    // enabling the DMC starts its sample
    apu.write_register(Register::Status, 0x10);
    assert_eq!(apu.request_dmc_reader_read(), Some(0xC400));
    apu.submit_dmc_buffer_byte(0x55);
    assert_eq!(apu.dmc.samples_remaining_bytes_counter, 32);
}

#[test]
fn apu_frame_interrupt_in_4_step_mode() {
    let mut apu = APU2A03::new();
    // the DMC's bit counter running, so that its timer can be clocked
    apu.dmc.shifter_remaining_bits_counter = 8;
    apu.write_register(Register::FrameCounter, 0x00);
    assert_eq!(apu.wait_reset, 4);
    for _ in 0..5 {
        apu.clock();
    }
    assert!(apu.is_4_step_squence_mode);
    for _ in 0..29826 {
        apu.clock();
    }
    assert!(!apu.irq_pin_state());
    apu.clock();
    assert!(apu.irq_pin_state());
    assert!(apu.is_irq_change_requested());
    apu.clear_irq_request_pin();
    assert!(!apu.is_irq_change_requested());
    // reading the status reports and acknowledges it
    assert_eq!(apu.read_register(Register::Status) & 0x40, 0x40);
    assert_eq!(apu.read_register(Register::Status) & 0x40, 0x00);
}

#[test]
fn apu_frame_interrupt_inhibited() {
    let mut apu = APU2A03::new();
    apu.dmc.shifter_remaining_bits_counter = 8;
    apu.write_register(Register::FrameCounter, 0x40);
    for _ in 0..40000 {
        apu.clock();
    }
    assert!(!apu.irq_pin_state());
}

#[test]
fn apu_length_counter_counts_half_frames() {
    let mut apu = APU2A03::new();
    apu.dmc.shifter_remaining_bits_counter = 8;
    apu.write_register(Register::Status, 0x01);
    // length index 3: 2 half frames
    apu.write_register(Register::Pulse1_4, 3 << 3);
    assert_eq!(apu.square_pulse_1.length_counter.counter(), 2);
    // 5-step mode: the reset clocks a half frame at once
    apu.write_register(Register::FrameCounter, 0x80);
    for _ in 0..5 {
        apu.clock();
    }
    assert_eq!(apu.square_pulse_1.length_counter.counter(), 1);
    for _ in 0..14913 {
        apu.clock();
    }
    assert_eq!(apu.square_pulse_1.length_counter.counter(), 0);
}

#[test]
fn apu_pulse_level_follows_duty_and_volume() {
    let mut apu = APU2A03::new();
    apu.dmc.shifter_remaining_bits_counter = 8;
    apu.write_register(Register::Status, 0x01);
    // duty 3 (first step high), constant volume 12, halt
    apu.write_register(Register::Pulse1_1, 0b1111_1100);
    apu.write_register(Register::Pulse1_3, 0x40);
    apu.write_register(Register::Pulse1_4, 0x08);
    let levels = apu.clock();
    assert_eq!(levels.square_pulse_1, 12);
    assert_eq!(levels.square_pulse_2, 0);
    assert_eq!(levels.dmc, 0);
}

#[test]
fn noise_shift_register_steps() {
    let mut noise = NoiseWave::new();
    assert_eq!(noise.output_level(), 0);
    noise.timer_clock();
    // bit 0 (1) xor bit 1 (0) enters at bit 14
    assert_eq!(noise.shift_register, 0x4000);
    assert_eq!(noise.current_timer, 1);
    noise.set_period(0);
    assert_eq!(noise.get_period(), 4);
}

#[test]
fn envelope_decays_and_loops() {
    let mut envelope = EnvelopeGenerator::new();
    envelope.set_volume(0, false);
    envelope.set_start_flag(true);
    envelope.clock();
    assert_eq!(envelope.current_volume(), 15);
    envelope.clock();
    assert_eq!(envelope.current_volume(), 14);
    for _ in 0..14 {
        envelope.clock();
    }
    assert_eq!(envelope.current_volume(), 0);
    envelope.clock();
    assert_eq!(envelope.current_volume(), 0);
    envelope.set_loop_flag(true);
    envelope.clock();
    assert_eq!(envelope.current_volume(), 15);
    envelope.set_volume(7, true);
    assert_eq!(envelope.current_volume(), 7);
}

#[test]
fn sweep_moves_period() {
    let mut pulse = SquarePulse::new();
    pulse.set_period(100);
    // enabled, divider period 0, add, shift 1
    pulse.set_sweeper_data(0x81);
    pulse.clock_sweeper();
    assert_eq!(pulse.get_period(), 150);
    // negate
    pulse.set_sweeper_data(0x89);
    pulse.clock_sweeper();
    assert_eq!(pulse.get_period(), 75);
    // a target above 0x7FF mutes and keeps the period
    pulse.set_period(0x700);
    pulse.set_sweeper_data(0x81);
    pulse.clock_sweeper();
    assert!(pulse.muted);
    assert_eq!(pulse.get_period(), 0x700);
}

#[test]
fn length_counter_halts_and_reloads() {
    let mut counter = LengthCounter::new();
    counter.reload_counter(0);
    assert_eq!(counter.counter(), 0);
    counter.set_enabled(true);
    counter.reload_counter(0);
    assert_eq!(counter.counter(), 10);
    counter.decrement();
    assert_eq!(counter.counter(), 9);
    counter.set_halt(true);
    counter.decrement();
    assert_eq!(counter.counter(), 9);
    counter.set_enabled(false);
    assert_eq!(counter.counter(), 0);
}

#[test]
fn buffered_channel_plays_in_order() {
    let mut channel = BufferedChannel::new(0i32);
    channel.recored_sample(3);
    channel.recored_sample(5);
    channel.recored_sample(7);
    assert_eq!(channel.len(), 3);
    assert_eq!(channel.get_output(), 3);
    assert_eq!(channel.get_output(), 5);
    assert_eq!(channel.get_output(), 7);
    assert_eq!(channel.len(), 0);
    assert!(!channel.get_is_overusing());
    // an empty buffer plays the last sample again and is overusing
    assert_eq!(channel.get_output(), 7);
    assert!(channel.get_is_overusing());
    assert!(!channel.get_is_underusing());
    channel.clear_using_flags();
    assert!(!channel.get_is_overusing());
}

#[test]
fn buffered_channel_silence_before_first_sample() {
    let mut channel = BufferedChannel::new(-1i32);
    assert_eq!(channel.get_output(), -1);
    assert!(channel.get_is_overusing());
}

#[test]
fn buffered_channel_underusing_after_a_frame() {
    let mut channel = BufferedChannel::new(0u32);
    assert_eq!(SAMPLES_PER_FRAME, 367);
    // a burst of recordings that started right after an output request
    channel.get_output();
    channel.clear_using_flags();
    for i in 0..SAMPLES_PER_FRAME {
        channel.recored_sample(i);
        assert!(!channel.get_is_underusing());
    }
    // the buffer now holds a frame; one more recording in the burst
    channel.recored_sample(1000);
    assert!(!channel.get_is_underusing());
    // a second burst starting after an output request
    channel.get_output();
    channel.recored_sample(1001);
    channel.recored_sample(1002);
    assert!(channel.get_is_underusing());
}

#[test]
fn buffered_channel_take_and_clear() {
    let mut channel = BufferedChannel::new(0u8);
    channel.recored_sample(1);
    channel.recored_sample(2);
    assert_eq!(channel.take_current_buffer(), vec![1, 2]);
    assert_eq!(channel.len(), 0);
    channel.recored_sample(9);
    channel.clear_buffer();
    assert_eq!(channel.len(), 0);
    assert_eq!(channel.get_output(), 0);
}

#[test]
fn apu_clocks_from_power_up() {
    let mut apu = APU2A03::new();
    for _ in 0..1000 {
        apu.clock();
    }
    // the DMC's bit counter started at 0 and wrapped around
    let mut dmc = Dmc::new();
    assert_eq!(dmc.shifter_remaining_bits_counter, 0);
    dmc.timer_clock();
    assert_eq!(dmc.shifter_remaining_bits_counter, 255);
    assert_eq!(dmc.current_timer, 0);
}
