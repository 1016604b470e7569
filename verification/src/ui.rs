//! What the user interface and the emulator say to each other, the
//! keyboard and gamepad controls, and the pixel formats of the interfaces.

use vstd::prelude::*;
use crate::display::Color;

verus! {

/// A request from the user interface to the emulator.
pub enum UiEvent {
    Exit,
    Reset,
    Pause,
    Resume,
    SaveState(u8),
    LoadState(u8),
    LoadRom(String),
}

/// A message from the emulator to the user interface.
pub enum BackendEvent {
    /// which of the save state slots hold a state
    PresentStates(Vec<u8>),
}

/// An event of the terminal interface: an input, or a tick of its clock.
pub enum Event<I> {
    Input(I),
    Tick,
}

/// A button of the standard NES controller.
#[derive(PartialEq, Eq, Clone, Copy, Debug, Structural)]
pub enum NesButton {
    A,
    B,
    Select,
    Start,
    Up,
    Down,
    Left,
    Right,
}

/// What the interface does for a key or gamepad event.
#[derive(PartialEq, Eq, Clone, Copy, Debug, Structural)]
pub enum UiAction {
    Press(NesButton),
    Release(NesButton),
    Reset,
    Pause,
    Resume,
    Nothing,
}

/// The key that stops and resumes the emulation.
pub const ESCAPE_KEY: char = '\u{1b}';

/// The keyboard layout, the same in every interface and either case:
/// J is B, K is A, U is Select, I is Start, and W, S, A, D are the
/// directions.
pub open spec fn spec_key_button(key: char) -> Option<NesButton> {
    if key == 'j' || key == 'J' {
        Some(NesButton::B)
    } else if key == 'k' || key == 'K' {
        Some(NesButton::A)
    } else if key == 'u' || key == 'U' {
        Some(NesButton::Select)
    } else if key == 'i' || key == 'I' {
        Some(NesButton::Start)
    } else if key == 'w' || key == 'W' {
        Some(NesButton::Up)
    } else if key == 's' || key == 'S' {
        Some(NesButton::Down)
    } else if key == 'a' || key == 'A' {
        Some(NesButton::Left)
    } else if key == 'd' || key == 'D' {
        Some(NesButton::Right)
    } else {
        None
    }
}

/// What pressing a key does: a controller key presses its button;
/// otherwise Ctrl-R resets, and Escape pauses a running emulation and
/// resumes a paused one.
pub open spec fn spec_key_action(key: char, ctrl: bool, paused: bool) -> UiAction {
    match spec_key_button(key) {
        Some(button) => UiAction::Press(button),
        None => if ctrl && (key == 'r' || key == 'R') {
            UiAction::Reset
        } else if key == ESCAPE_KEY {
            if paused {
                UiAction::Resume
            } else {
                UiAction::Pause
            }
        } else {
            UiAction::Nothing
        },
    }
}

/// What releasing a key does: a controller key releases its button.
pub open spec fn spec_key_release_action(key: char) -> UiAction {
    match spec_key_button(key) {
        Some(button) => UiAction::Release(button),
        None => UiAction::Nothing,
    }
}

/// The gamepad layout (a PS4 pad): X (button 0) is B, O (button 1) is A,
/// Select (button 8) is Select and Start (button 9) is Start.
pub open spec fn spec_gamepad_button(button: u8) -> Option<NesButton> {
    if button == 0 {
        Some(NesButton::B)
    } else if button == 1 {
        Some(NesButton::A)
    } else if button == 8 {
        Some(NesButton::Select)
    } else if button == 9 {
        Some(NesButton::Start)
    } else {
        None
    }
}

/// The gamepad's direction pad on one axis: a positive direction presses
/// Down (vertical) or Right, a negative one Up or Left, and the centre
/// releases both buttons of the axis.
pub open spec fn spec_gamepad_pov(vertical: bool, direction: i8) -> (UiAction, UiAction) {
    let (positive, negative) = if vertical {
        (NesButton::Down, NesButton::Up)
    } else {
        (NesButton::Right, NesButton::Left)
    };
    if direction > 0 {
        (UiAction::Press(positive), UiAction::Nothing)
    } else if direction < 0 {
        (UiAction::Press(negative), UiAction::Nothing)
    } else {
        (UiAction::Release(positive), UiAction::Release(negative))
    }
}

/// Whether the emulation is paused after the interface took an action:
/// Pause stops it, Resume runs it, the other actions leave it.
pub open spec fn spec_paused_after(action: UiAction, paused: bool) -> bool {
    match action {
        UiAction::Pause => true,
        UiAction::Resume => false,
        _ => paused,
    }
}

/// Escape toggles the pause, so successive presses alternate between
/// pausing and resuming; the controller keys never change it.
pub proof fn lemma_escape_toggles_pause(key: char, ctrl: bool, paused: bool)
    ensures
        spec_paused_after(spec_key_action(ESCAPE_KEY, ctrl, paused), paused) == !paused,
        spec_key_button(key) is Some ==> spec_paused_after(spec_key_action(key, ctrl, paused), paused)
            == paused,
{
}

/// The keyboard is case-blind and pairs presses with releases: a lower
/// case letter and its capital map to the same button, and a key that maps
/// to a button presses it when pressed (whatever Ctrl and the pause say)
/// and releases it when released; a key that maps to none releases nothing.
pub proof fn lemma_keys_case_blind_and_paired(key: char, ctrl: bool, paused: bool)
    ensures
        'a' <= key <= 'z' ==> spec_key_button(key) == spec_key_button(((key as int) - 32) as char),
        spec_key_button(key) matches Some(b) ==> spec_key_action(key, ctrl, paused) == UiAction::Press(b)
            && spec_key_release_action(key) == UiAction::Release(b),
        spec_key_button(key) is None ==> spec_key_release_action(key) == UiAction::Nothing,
{
}

/// Whether the emulation is paused after the interface took `action`.
pub fn paused_after(action: UiAction, paused: bool) -> (p: bool)
    ensures
        p == spec_paused_after(action, paused),
{
    match action {
        UiAction::Pause => true,
        UiAction::Resume => false,
        _ => paused,
    }
}

/// The controller button that a key stands for.
pub fn key_button(key: char) -> (b: Option<NesButton>)
    ensures
        b == spec_key_button(key),
{
    if key == 'j' || key == 'J' {
        Some(NesButton::B)
    } else if key == 'k' || key == 'K' {
        Some(NesButton::A)
    } else if key == 'u' || key == 'U' {
        Some(NesButton::Select)
    } else if key == 'i' || key == 'I' {
        Some(NesButton::Start)
    } else if key == 'w' || key == 'W' {
        Some(NesButton::Up)
    } else if key == 's' || key == 'S' {
        Some(NesButton::Down)
    } else if key == 'a' || key == 'A' {
        Some(NesButton::Left)
    } else if key == 'd' || key == 'D' {
        Some(NesButton::Right)
    } else {
        None
    }
}

/// What pressing `key` does, with Ctrl held or not, while the emulation is
/// paused or running.
pub fn key_action(key: char, ctrl: bool, paused: bool) -> (a: UiAction)
    ensures
        a == spec_key_action(key, ctrl, paused),
{
    match key_button(key) {
        Some(button) => UiAction::Press(button),
        None => if ctrl && (key == 'r' || key == 'R') {
            UiAction::Reset
        } else if key == ESCAPE_KEY {
            if paused {
                UiAction::Resume
            } else {
                UiAction::Pause
            }
        } else {
            UiAction::Nothing
        },
    }
}

/// What releasing `key` does.
pub fn key_release_action(key: char) -> (a: UiAction)
    ensures
        a == spec_key_release_action(key),
{
    match key_button(key) {
        Some(button) => UiAction::Release(button),
        None => UiAction::Nothing,
    }
}

/// The controller button that a gamepad button stands for.
pub fn gamepad_button(button: u8) -> (b: Option<NesButton>)
    ensures
        b == spec_gamepad_button(button),
{
    if button == 0 {
        Some(NesButton::B)
    } else if button == 1 {
        Some(NesButton::A)
    } else if button == 8 {
        Some(NesButton::Select)
    } else if button == 9 {
        Some(NesButton::Start)
    } else {
        None
    }
}

/// What moving the direction pad on one axis does.
pub fn gamepad_pov(vertical: bool, direction: i8) -> (actions: (UiAction, UiAction))
    ensures
        actions == spec_gamepad_pov(vertical, direction),
{
    let (positive, negative) = if vertical {
        (NesButton::Down, NesButton::Up)
    } else {
        (NesButton::Right, NesButton::Left)
    };
    if direction > 0 {
        (UiAction::Press(positive), UiAction::Nothing)
    } else if direction < 0 {
        (UiAction::Press(negative), UiAction::Nothing)
    } else {
        (UiAction::Release(positive), UiAction::Release(negative))
    }
}

/// Red, green, blue, then an opaque alpha.
pub open spec fn rgba(color: Color) -> [u8; 4] {
    [color.r, color.g, color.b, 0xFF]
}

/// Blue, green, red, then an opaque alpha.
pub open spec fn bgra(color: Color) -> [u8; 4] {
    [color.b, color.g, color.r, 0xFF]
}

/// The terminal interface.
pub struct TuiProvider {}

impl TuiProvider {
    /// The terminal paints pixels from RGBA bytes.
    pub fn tv_color(color: &Color) -> (bytes: [u8; 4])
        ensures
            bytes == rgba(*color),
    {
        [color.r, color.g, color.b, 0xFF]
    }
}

/// The native Windows interface.
pub struct NwgProvider {}

impl NwgProvider {
    pub fn new() -> (p: Self) {
        Self {}
    }

    /// Windows bitmaps take BGRA bytes.
    pub fn tv_color(color: &Color) -> (bytes: [u8; 4])
        ensures
            bytes == bgra(*color),
    {
        [color.b, color.g, color.r, 0xFF]
    }
}

/// The SFML interface.
pub struct SfmlProvider {}

impl SfmlProvider {
    /// SFML images take RGBA bytes.
    pub fn tv_color(color: &Color) -> (bytes: [u8; 4])
        ensures
            bytes == rgba(*color),
    {
        [color.r, color.g, color.b, 0xFF]
    }
}

/// The GTK interface.
pub struct GtkProvider {}

impl GtkProvider {
    /// Cairo image surfaces take BGRA bytes.
    pub fn tv_color(color: &Color) -> (bytes: [u8; 4])
        ensures
            bytes == bgra(*color),
    {
        [color.b, color.g, color.r, 0xFF]
    }
}

} // verus!
