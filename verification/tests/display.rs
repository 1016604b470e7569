use plastic::display::{Color, TV, TV_BUFFER_SIZE};
use plastic::frame_limiter::{add_percent, FrameTiming};
use plastic::memory_map::{cpu_bus_target, ppu_bus_target, CpuBusTarget, PpuBusTarget};
use plastic::ui::{
    gamepad_button, gamepad_pov, key_action, key_release_action, paused_after, BackendEvent, Event,
    GtkProvider,
    NesButton, NwgProvider, SfmlProvider, TuiProvider, UiAction, UiEvent, ESCAPE_KEY,
};

#[test]
fn tv_shows_pixels_after_end_of_frame() {
    let mut tv = TV::new(TuiProvider::tv_color);
    assert_eq!(tv.get_image_clone().len(), TV_BUFFER_SIZE);
    let red = Color { r: 0xFF, g: 0x10, b: 0x20 };
    tv.set_pixel(1, 2, &red);
    // nothing shows before the frame ends
    assert!(tv.get_image_clone().iter().all(|b| *b == 0));
    tv.signal_end_of_frame();
    let image = tv.get_image_clone();
    let index = (2 * 256 + 1) * 4;
    assert_eq!(&image[index..index + 4], &[0xFF, 0x10, 0x20, 0xFF]);
    // the other pixels are black, opaque
    assert_eq!(&image[0..4], &[0, 0, 0, 0xFF]);
    tv.reset();
    assert!(tv.get_image_clone().iter().all(|b| *b == 0));
}

#[test]
fn tv_with_bgra_converter() {
    let mut tv = TV::new(NwgProvider::tv_color);
    tv.set_pixel(255, 239, &Color { r: 1, g: 2, b: 3 });
    tv.signal_end_of_frame();
    let image = tv.get_image_clone();
    assert_eq!(&image[TV_BUFFER_SIZE - 4..], &[3, 2, 1, 0xFF]);
}

#[test]
fn color_converters() {
    let color = Color { r: 10, g: 20, b: 30 };
    assert_eq!(TuiProvider::tv_color(&color), [10, 20, 30, 0xFF]);
    assert_eq!(SfmlProvider::tv_color(&color), [10, 20, 30, 0xFF]);
    assert_eq!(NwgProvider::tv_color(&color), [30, 20, 10, 0xFF]);
    assert_eq!(GtkProvider::tv_color(&color), [30, 20, 10, 0xFF]);
    let _provider = NwgProvider::new();
}

#[test]
fn ui_events() {
    let event = UiEvent::SaveState(3);
    assert!(matches!(event, UiEvent::SaveState(3)));
    let event = UiEvent::LoadRom(String::from("game.nes"));
    assert!(matches!(event, UiEvent::LoadRom(ref path) if path == "game.nes"));
    let backend = BackendEvent::PresentStates(vec![1, 2]);
    assert!(matches!(backend, BackendEvent::PresentStates(ref states) if states.len() == 2));
    let tick: Event<u8> = Event::Tick;
    assert!(matches!(tick, Event::Tick));
    assert!(matches!(Event::Input(5u8), Event::Input(5)));
}

#[test]
fn percent_increase() {
    assert_eq!(add_percent(100, 20), 120);
    assert_eq!(add_percent(16666, 20), 19999);
    assert_eq!(add_percent(0, 50), 0);
}

#[test]
fn frame_timing_reports_every_second() {
    let mut timing = FrameTiming::new(16666, 1_000);
    assert_eq!(timing.average_frametime, 1000);
    assert_eq!(timing.begin(1_000), Some(16666));
    timing.after_sleep(17_666);
    // a frame that took longer than a frame leaves no sleep
    assert_eq!(timing.begin(40_000), None);
    assert_eq!(timing.end(500_000), None);
    assert_eq!(timing.frame_counter, 1);
    assert_eq!(timing.end(1_001_000), Some((2, 1_000_000)));
    assert_eq!(timing.frame_counter, 0);
    assert_eq!(timing.frame_counter_timestamp, 1_001_000);
    timing.adjust_offset(100);
    assert_eq!(timing.offset, -100);
}

#[test]
fn cpu_memory_map() {
    assert_eq!(cpu_bus_target(0x0801), CpuBusTarget::Ram(0x001));
    assert_eq!(cpu_bus_target(0x1FFF), CpuBusTarget::Ram(0x7FF));
    assert_eq!(cpu_bus_target(0x200A), CpuBusTarget::Ppu(0x2002));
    assert_eq!(cpu_bus_target(0x3FFF), CpuBusTarget::Ppu(0x2007));
    assert_eq!(cpu_bus_target(0x4000), CpuBusTarget::Apu(0x4000));
    assert_eq!(cpu_bus_target(0x4014), CpuBusTarget::Ppu(0x4014));
    assert_eq!(cpu_bus_target(0x4015), CpuBusTarget::Apu(0x4015));
    assert_eq!(cpu_bus_target(0x4016), CpuBusTarget::Controller(0x4016));
    assert_eq!(cpu_bus_target(0x4017), CpuBusTarget::Apu(0x4017));
    assert_eq!(cpu_bus_target(0x401A), CpuBusTarget::TestMode);
    assert_eq!(cpu_bus_target(0x4020), CpuBusTarget::Cartridge(0x4020));
    assert_eq!(cpu_bus_target(0x8000), CpuBusTarget::Cartridge(0x8000));
    assert_eq!(ppu_bus_target(0x1234), PpuBusTarget::Cartridge(0x1234));
    assert_eq!(ppu_bus_target(0x3123), PpuBusTarget::VRam(0x2123));
    assert_eq!(ppu_bus_target(0x3F10), PpuBusTarget::Palette(0x3F10));
    assert_eq!(ppu_bus_target(0x7F10), PpuBusTarget::Palette(0x3F10));
    assert_eq!(ppu_bus_target(0x4000), PpuBusTarget::Cartridge(0x0000));
}

#[test]
fn keyboard_controls() {
    let layout = [
        ('j', NesButton::B),
        ('k', NesButton::A),
        ('u', NesButton::Select),
        ('i', NesButton::Start),
        ('w', NesButton::Up),
        ('s', NesButton::Down),
        ('a', NesButton::Left),
        ('d', NesButton::Right),
    ];
    for (key, button) in layout {
        assert_eq!(key_action(key, false, false), UiAction::Press(button));
        assert_eq!(key_action(key.to_ascii_uppercase(), false, true), UiAction::Press(button));
        assert_eq!(key_release_action(key), UiAction::Release(button));
    }
    assert_eq!(key_action('x', false, false), UiAction::Nothing);
    assert_eq!(key_release_action('r'), UiAction::Nothing);
}

#[test]
fn keyboard_reset_and_pause() {
    assert_eq!(key_action('r', true, false), UiAction::Reset);
    assert_eq!(key_action('R', true, true), UiAction::Reset);
    assert_eq!(key_action('r', false, false), UiAction::Nothing);
    assert_eq!(key_action(ESCAPE_KEY, false, false), UiAction::Pause);
    assert_eq!(key_action(ESCAPE_KEY, false, true), UiAction::Resume);
    // a controller key with Ctrl held still presses its button
    assert_eq!(key_action('j', true, false), UiAction::Press(NesButton::B));
}

#[test]
fn gamepad_controls() {
    assert_eq!(gamepad_button(0), Some(NesButton::B));
    assert_eq!(gamepad_button(1), Some(NesButton::A));
    assert_eq!(gamepad_button(8), Some(NesButton::Select));
    assert_eq!(gamepad_button(9), Some(NesButton::Start));
    assert_eq!(gamepad_button(2), None);
    assert_eq!(gamepad_pov(true, 1), (UiAction::Press(NesButton::Down), UiAction::Nothing));
    assert_eq!(gamepad_pov(true, -1), (UiAction::Press(NesButton::Up), UiAction::Nothing));
    assert_eq!(gamepad_pov(false, 1), (UiAction::Press(NesButton::Right), UiAction::Nothing));
    assert_eq!(gamepad_pov(false, -1), (UiAction::Press(NesButton::Left), UiAction::Nothing));
    assert_eq!(
        gamepad_pov(false, 0),
        (UiAction::Release(NesButton::Right), UiAction::Release(NesButton::Left))
    );
}

#[test]
fn escape_alternates_pause_and_resume() {
    let mut paused = false;
    let mut actions = Vec::new();
    for _ in 0..4 {
        let action = key_action(ESCAPE_KEY, false, paused);
        actions.push(action);
        paused = paused_after(action, paused);
    }
    assert_eq!(actions, vec![UiAction::Pause, UiAction::Resume, UiAction::Pause, UiAction::Resume]);
    assert!(!paused);
    // controller keys leave the pause as it is
    assert!(paused_after(key_action('j', false, true), true));
}
