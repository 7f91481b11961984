//! The Windows input back end's decisions: which low-level hook messages are
//! captured and as what, and which `SendInput` records a remote event turns
//! into. Coordinates, the hook and `SendInput` itself stay with the caller.
use vstd::prelude::*;
use crate::protocol::messages::MouseButton;

verus! {

pub fn platform_name() -> (name: &'static str)
    ensures
        name@ == "windows"@,
{
    "windows"
}

#[derive(Debug, Clone, Copy)]
pub struct WinInputPlatform;

impl WinInputPlatform {
    pub fn new() -> Self {
        WinInputPlatform
    }
}

/// Win32 mouse message identifiers delivered to a low-level mouse hook.
pub const WM_MOUSEMOVE: u32 = 0x0200;
pub const WM_LBUTTONDOWN: u32 = 0x0201;
pub const WM_LBUTTONUP: u32 = 0x0202;
pub const WM_RBUTTONDOWN: u32 = 0x0204;
pub const WM_RBUTTONUP: u32 = 0x0205;
pub const WM_MBUTTONDOWN: u32 = 0x0207;
pub const WM_MBUTTONUP: u32 = 0x0208;
pub const WM_MOUSEWHEEL: u32 = 0x020A;
pub const WM_XBUTTONDOWN: u32 = 0x020B;
pub const WM_XBUTTONUP: u32 = 0x020C;
pub const WM_MOUSEHWHEEL: u32 = 0x020E;

/// The extra buttons named in the high word of a hook's mouse data.
pub const XBUTTON1: u16 = 0x0001;
pub const XBUTTON2: u16 = 0x0002;

/// `MOUSEINPUT` flags.
pub const MOUSEEVENTF_MOVE: u32 = 0x0001;
pub const MOUSEEVENTF_LEFTDOWN: u32 = 0x0002;
pub const MOUSEEVENTF_LEFTUP: u32 = 0x0004;
pub const MOUSEEVENTF_RIGHTDOWN: u32 = 0x0008;
pub const MOUSEEVENTF_RIGHTUP: u32 = 0x0010;
pub const MOUSEEVENTF_MIDDLEDOWN: u32 = 0x0020;
pub const MOUSEEVENTF_MIDDLEUP: u32 = 0x0040;
pub const MOUSEEVENTF_WHEEL: u32 = 0x0800;
pub const MOUSEEVENTF_HWHEEL: u32 = 0x1000;
pub const MOUSEEVENTF_VIRTUALDESK: u32 = 0x4000;
pub const MOUSEEVENTF_ABSOLUTE: u32 = 0x8000;

/// One wheel notch in wheel-data units.
pub const WHEEL_DELTA: i32 = 120;

/// The high 16 bits of a 32-bit value.
pub fn high_word(value: u32) -> (word: u16)
    ensures
        word == value / 0x1_0000,
{
    (value / 0x1_0000) as u16
}

/// The button a hook message is about; for the extra buttons, the one the
/// high word of the mouse data names.
pub open spec fn hook_button_of(message: u32, mouse_data: u32) -> MouseButton {
    if message == WM_LBUTTONDOWN || message == WM_LBUTTONUP {
        MouseButton::Left
    } else if message == WM_RBUTTONDOWN || message == WM_RBUTTONUP {
        MouseButton::Right
    } else if message == WM_MBUTTONDOWN || message == WM_MBUTTONUP {
        MouseButton::Middle
    } else if message == WM_XBUTTONDOWN || message == WM_XBUTTONUP {
        let xbutton = (mouse_data / 0x1_0000) as u16;
        if xbutton == XBUTTON1 {
            MouseButton::Back
        } else if xbutton == XBUTTON2 {
            MouseButton::Forward
        } else {
            MouseButton::Other(xbutton as u8)
        }
    } else {
        MouseButton::Other(0)
    }
}

pub fn hook_button(message: u32, mouse_data: u32) -> (button: MouseButton)
    ensures
        button == hook_button_of(message, mouse_data),
{
    if message == WM_LBUTTONDOWN || message == WM_LBUTTONUP {
        MouseButton::Left
    } else if message == WM_RBUTTONDOWN || message == WM_RBUTTONUP {
        MouseButton::Right
    } else if message == WM_MBUTTONDOWN || message == WM_MBUTTONUP {
        MouseButton::Middle
    } else if message == WM_XBUTTONDOWN || message == WM_XBUTTONUP {
        let xbutton = high_word(mouse_data);
        if xbutton == XBUTTON1 {
            MouseButton::Back
        } else if xbutton == XBUTTON2 {
            MouseButton::Forward
        } else {
            MouseButton::Other(xbutton as u8)
        }
    } else {
        MouseButton::Other(0)
    }
}

/// What a captured hook message reports, apart from the pointer position.
#[derive(Debug, Clone, Copy, PartialEq, Eq, Structural)]
pub enum HookAction {
    Move,
    Down(MouseButton),
    Up(MouseButton),
    /// A wheel turn: `delta` wheel-data units (a notch is `WHEEL_DELTA`),
    /// on the horizontal wheel or the vertical one.
    Wheel { horizontal: bool, delta: i16 },
}

/// The signed wheel distance in the high word of the mouse data.
pub open spec fn wheel_delta_of(mouse_data: u32) -> i16 {
    ((mouse_data / 0x1_0000) as u16) as i16
}

/// Which hook messages are captured, and as what; other messages are not.
pub open spec fn hook_action_of(message: u32, mouse_data: u32) -> Option<HookAction> {
    if message == WM_MOUSEMOVE {
        Some(HookAction::Move)
    } else if message == WM_LBUTTONDOWN || message == WM_RBUTTONDOWN || message == WM_MBUTTONDOWN
        || message == WM_XBUTTONDOWN {
        Some(HookAction::Down(hook_button_of(message, mouse_data)))
    } else if message == WM_LBUTTONUP || message == WM_RBUTTONUP || message == WM_MBUTTONUP
        || message == WM_XBUTTONUP {
        Some(HookAction::Up(hook_button_of(message, mouse_data)))
    } else if message == WM_MOUSEWHEEL {
        Some(HookAction::Wheel { horizontal: false, delta: wheel_delta_of(mouse_data) })
    } else if message == WM_MOUSEHWHEEL {
        Some(HookAction::Wheel { horizontal: true, delta: wheel_delta_of(mouse_data) })
    } else {
        None
    }
}

pub fn hook_action(message: u32, mouse_data: u32) -> (action: Option<HookAction>)
    ensures
        action == hook_action_of(message, mouse_data),
{
    if message == WM_MOUSEMOVE {
        Some(HookAction::Move)
    } else if message == WM_LBUTTONDOWN || message == WM_RBUTTONDOWN || message == WM_MBUTTONDOWN
        || message == WM_XBUTTONDOWN {
        Some(HookAction::Down(hook_button(message, mouse_data)))
    } else if message == WM_LBUTTONUP || message == WM_RBUTTONUP || message == WM_MBUTTONUP
        || message == WM_XBUTTONUP {
        Some(HookAction::Up(hook_button(message, mouse_data)))
    } else if message == WM_MOUSEWHEEL {
        Some(HookAction::Wheel { horizontal: false, delta: high_word(mouse_data) as i16 })
    } else if message == WM_MOUSEHWHEEL {
        Some(HookAction::Wheel { horizontal: true, delta: high_word(mouse_data) as i16 })
    } else {
        None
    }
}

/// The `SendInput` flag that presses (`down`) or releases a button. Windows
/// has no flag for the extra buttons here, so they act as the middle button.
pub open spec fn button_flag_of(button: MouseButton, down: bool) -> u32 {
    match button {
        MouseButton::Left => if down { MOUSEEVENTF_LEFTDOWN } else { MOUSEEVENTF_LEFTUP },
        MouseButton::Right => if down { MOUSEEVENTF_RIGHTDOWN } else { MOUSEEVENTF_RIGHTUP },
        _ => if down { MOUSEEVENTF_MIDDLEDOWN } else { MOUSEEVENTF_MIDDLEUP },
    }
}

pub fn button_flag(button: MouseButton, down: bool) -> (flag: u32)
    ensures
        flag == button_flag_of(button, down),
{
    match button {
        MouseButton::Left => if down { MOUSEEVENTF_LEFTDOWN } else { MOUSEEVENTF_LEFTUP },
        MouseButton::Right => if down { MOUSEEVENTF_RIGHTDOWN } else { MOUSEEVENTF_RIGHTUP },
        _ => if down { MOUSEEVENTF_MIDDLEDOWN } else { MOUSEEVENTF_MIDDLEUP },
    }
}

/// One `MOUSEINPUT` record for `SendInput`.
#[derive(Debug, Clone, Copy, PartialEq, Eq, Structural)]
pub struct MouseInput {
    pub dx: i32,
    pub dy: i32,
    pub mouse_data: u32,
    pub flags: u32,
}

/// A remote pointer event with its distances already rounded: a relative
/// move, a move to a position normalised to the virtual desktop (0..=65535
/// on each axis), a button press or release, or a wheel turn in notches on
/// each axis (`None` for an axis that did not turn).
#[derive(Debug, Clone, Copy, PartialEq, Eq, Structural)]
pub enum RemoteAction {
    Move { dx: i32, dy: i32 },
    MoveTo { nx: i32, ny: i32 },
    Down(MouseButton),
    Up(MouseButton),
    Wheel { dx: Option<i32>, dy: Option<i32> },
}

/// Whether every wheel distance fits in wheel-data units.
pub open spec fn wheel_fits(action: RemoteAction) -> bool {
    match action {
        RemoteAction::Wheel { dx, dy } => {
            &&& (dx matches Some(n) ==> -17_895_697 <= n <= 17_895_697)
            &&& (dy matches Some(n) ==> -17_895_697 <= n <= 17_895_697)
        },
        _ => true,
    }
}

/// A wheel record: `notches` notches as wheel data, under `flag`.
pub open spec fn wheel_input(notches: i32, flag: u32) -> MouseInput {
    MouseInput { dx: 0, dy: 0, mouse_data: (notches * WHEEL_DELTA) as u32, flags: flag }
}

/// The records `SendInput` gets for a remote event, in order: the vertical
/// wheel before the horizontal one.
pub open spec fn mouse_inputs_of(action: RemoteAction) -> Seq<MouseInput> {
    match action {
        RemoteAction::Move { dx, dy } => seq![
            MouseInput { dx, dy, mouse_data: 0, flags: MOUSEEVENTF_MOVE },
        ],
        RemoteAction::MoveTo { nx, ny } => seq![
            MouseInput {
                dx: nx,
                dy: ny,
                mouse_data: 0,
                flags: MOUSEEVENTF_MOVE | MOUSEEVENTF_ABSOLUTE | MOUSEEVENTF_VIRTUALDESK,
            },
        ],
        RemoteAction::Down(button) => seq![
            MouseInput { dx: 0, dy: 0, mouse_data: 0, flags: button_flag_of(button, true) },
        ],
        RemoteAction::Up(button) => seq![
            MouseInput { dx: 0, dy: 0, mouse_data: 0, flags: button_flag_of(button, false) },
        ],
        RemoteAction::Wheel { dx, dy } => {
            let vertical = match dy {
                Some(n) => seq![wheel_input(n, MOUSEEVENTF_WHEEL)],
                None => Seq::<MouseInput>::empty(),
            };
            let horizontal = match dx {
                Some(n) => seq![wheel_input(n, MOUSEEVENTF_HWHEEL)],
                None => Seq::<MouseInput>::empty(),
            };
            vertical + horizontal
        },
    }
}

fn wheel_record(notches: i32, flag: u32) -> (input: MouseInput)
    requires
        -17_895_697 <= notches <= 17_895_697,
    ensures
        input == wheel_input(notches, flag),
{
    let units: i32 = notches * WHEEL_DELTA;
    MouseInput { dx: 0, dy: 0, mouse_data: units as u32, flags: flag }
}

/// The `SendInput` records for a remote event.
pub fn mouse_inputs(action: RemoteAction) -> (inputs: Vec<MouseInput>)
    requires
        wheel_fits(action),
    ensures
        inputs@ == mouse_inputs_of(action),
{
    let mut inputs: Vec<MouseInput> = Vec::new();
    match action {
        RemoteAction::Move { dx, dy } => {
            inputs.push(MouseInput { dx, dy, mouse_data: 0, flags: MOUSEEVENTF_MOVE });
        },
        RemoteAction::MoveTo { nx, ny } => {
            inputs.push(
                MouseInput {
                    dx: nx,
                    dy: ny,
                    mouse_data: 0,
                    flags: MOUSEEVENTF_MOVE | MOUSEEVENTF_ABSOLUTE | MOUSEEVENTF_VIRTUALDESK,
                },
            );
        },
        RemoteAction::Down(button) => {
            inputs.push(MouseInput { dx: 0, dy: 0, mouse_data: 0, flags: button_flag(button, true) });
        },
        RemoteAction::Up(button) => {
            inputs.push(MouseInput { dx: 0, dy: 0, mouse_data: 0, flags: button_flag(button, false) });
        },
        RemoteAction::Wheel { dx, dy } => {
            if let Some(n) = dy {
                inputs.push(wheel_record(n, MOUSEEVENTF_WHEEL));
            }
            if let Some(n) = dx {
                inputs.push(wheel_record(n, MOUSEEVENTF_HWHEEL));
            }
        },
    }
    assert(inputs@ =~= mouse_inputs_of(action));
    inputs
}

/// The extra button a hook's mouse data names: 1 back, 2 forward, any
/// other number kept as it is.
pub open spec fn extra_button_named(mouse_data: u32) -> MouseButton {
    let n = mouse_data / 0x1_0000;
    if n == 1 {
        MouseButton::Back
    } else if n == 2 {
        MouseButton::Forward
    } else {
        MouseButton::Other((n % 256) as u8)
    }
}

/// Each button's press message is captured as `Down` and its release
/// message as `Up` of the same button: 0x0201/0x0202 the left button,
/// 0x0204/0x0205 the right, 0x0207/0x0208 the middle, and 0x020B/0x020C the
/// extra button named in the high word of the mouse data.
pub proof fn lemma_hook_press_and_release_name_one_button(mouse_data: u32)
    ensures
        hook_action_of(0x0201, mouse_data) == Some(HookAction::Down(MouseButton::Left)),
        hook_action_of(0x0202, mouse_data) == Some(HookAction::Up(MouseButton::Left)),
        hook_action_of(0x0204, mouse_data) == Some(HookAction::Down(MouseButton::Right)),
        hook_action_of(0x0205, mouse_data) == Some(HookAction::Up(MouseButton::Right)),
        hook_action_of(0x0207, mouse_data) == Some(HookAction::Down(MouseButton::Middle)),
        hook_action_of(0x0208, mouse_data) == Some(HookAction::Up(MouseButton::Middle)),
        hook_action_of(0x020B, mouse_data) == Some(HookAction::Down(extra_button_named(mouse_data))),
        hook_action_of(0x020C, mouse_data) == Some(HookAction::Up(extra_button_named(mouse_data))),
{
    let n = mouse_data / 0x1_0000;
    assert(n < 0x1_0000) by (nonlinear_arith)
        requires
            n == mouse_data / 0x1_0000,
    ;
    assert(((n as u16) as u8) == ((n % 256) as u8)) by (bit_vector)
        requires
            n < 0x1_0000,
    ;
}

/// A remote press and its release are each one record with no movement or
/// wheel data, and the release flag is the press flag doubled: left 2 then
/// 4, right 8 then 16, and the middle button (which the extra buttons use)
/// 32 then 64. So a release is never sent as a press.
pub proof fn lemma_release_flag_follows_press_flag(button: MouseButton)
    ensures
        mouse_inputs_of(RemoteAction::Down(button)).len() == 1,
        mouse_inputs_of(RemoteAction::Up(button)).len() == 1,
        mouse_inputs_of(RemoteAction::Down(button))[0].dx == 0,
        mouse_inputs_of(RemoteAction::Down(button))[0].dy == 0,
        mouse_inputs_of(RemoteAction::Down(button))[0].mouse_data == 0,
        mouse_inputs_of(RemoteAction::Up(button))[0].dx == 0,
        mouse_inputs_of(RemoteAction::Up(button))[0].dy == 0,
        mouse_inputs_of(RemoteAction::Up(button))[0].mouse_data == 0,
        mouse_inputs_of(RemoteAction::Up(button))[0].flags == 2 * mouse_inputs_of(
            RemoteAction::Down(button),
        )[0].flags,
        mouse_inputs_of(RemoteAction::Down(button))[0].flags == match button {
            MouseButton::Left => 2u32,
            MouseButton::Right => 8u32,
            _ => 32u32,
        },
{
}

} // verus!
