use flowlink::input::windows::{
    button_flag, high_word, hook_action, hook_button, mouse_inputs, HookAction, MouseInput,
    RemoteAction, MOUSEEVENTF_ABSOLUTE, MOUSEEVENTF_HWHEEL, MOUSEEVENTF_LEFTDOWN,
    MOUSEEVENTF_MIDDLEUP, MOUSEEVENTF_MOVE, MOUSEEVENTF_RIGHTUP, MOUSEEVENTF_VIRTUALDESK,
    MOUSEEVENTF_WHEEL, WM_LBUTTONDOWN, WM_MOUSEHWHEEL, WM_MOUSEMOVE, WM_MOUSEWHEEL, WM_RBUTTONUP,
    WM_XBUTTONDOWN, WM_XBUTTONUP,
};
use flowlink::protocol::messages::MouseButton;

#[test]
fn high_word_takes_the_upper_sixteen_bits() {
    assert_eq!(high_word(0x1234_5678), 0x1234);
    assert_eq!(high_word(0x0000_ffff), 0);
    assert_eq!(high_word(u32::MAX), 0xffff);
}

#[test]
fn hook_messages_become_actions() {
    assert_eq!(hook_action(WM_MOUSEMOVE, 0), Some(HookAction::Move));
    assert_eq!(
        hook_action(WM_LBUTTONDOWN, 0),
        Some(HookAction::Down(MouseButton::Left))
    );
    assert_eq!(
        hook_action(WM_RBUTTONUP, 0),
        Some(HookAction::Up(MouseButton::Right))
    );
    assert_eq!(
        hook_action(WM_XBUTTONDOWN, 0x0001_0000),
        Some(HookAction::Down(MouseButton::Back))
    );
    assert_eq!(
        hook_action(WM_XBUTTONUP, 0x0002_0000),
        Some(HookAction::Up(MouseButton::Forward))
    );
    assert_eq!(
        hook_action(WM_MOUSEWHEEL, 0xff88_0000),
        Some(HookAction::Wheel { horizontal: false, delta: -120 })
    );
    assert_eq!(
        hook_action(WM_MOUSEHWHEEL, 0x0078_0000),
        Some(HookAction::Wheel { horizontal: true, delta: 120 })
    );
    assert_eq!(hook_action(0x0100, 0), None);
}

#[test]
fn unknown_extra_button_keeps_its_number() {
    assert_eq!(hook_button(WM_XBUTTONDOWN, 0x0005_0000), MouseButton::Other(5));
    assert_eq!(hook_button(WM_MOUSEMOVE, 0), MouseButton::Other(0));
}

#[test]
fn button_flags_fold_extra_buttons_onto_middle() {
    assert_eq!(button_flag(MouseButton::Left, true), MOUSEEVENTF_LEFTDOWN);
    assert_eq!(button_flag(MouseButton::Right, false), MOUSEEVENTF_RIGHTUP);
    assert_eq!(button_flag(MouseButton::Back, false), MOUSEEVENTF_MIDDLEUP);
    assert_eq!(button_flag(MouseButton::Other(9), false), MOUSEEVENTF_MIDDLEUP);
}

#[test]
fn remote_events_become_send_input_records() {
    assert_eq!(
        mouse_inputs(RemoteAction::Move { dx: 3, dy: -4 }),
        vec![MouseInput { dx: 3, dy: -4, mouse_data: 0, flags: MOUSEEVENTF_MOVE }]
    );
    assert_eq!(
        mouse_inputs(RemoteAction::MoveTo { nx: 65_535, ny: 0 }),
        vec![MouseInput {
            dx: 65_535,
            dy: 0,
            mouse_data: 0,
            flags: MOUSEEVENTF_MOVE | MOUSEEVENTF_ABSOLUTE | MOUSEEVENTF_VIRTUALDESK,
        }]
    );
    assert_eq!(
        mouse_inputs(RemoteAction::Down(MouseButton::Left)),
        vec![MouseInput { dx: 0, dy: 0, mouse_data: 0, flags: MOUSEEVENTF_LEFTDOWN }]
    );
    assert_eq!(
        mouse_inputs(RemoteAction::Wheel { dx: Some(-1), dy: Some(2) }),
        vec![
            MouseInput { dx: 0, dy: 0, mouse_data: 240, flags: MOUSEEVENTF_WHEEL },
            MouseInput { dx: 0, dy: 0, mouse_data: 0xffff_ff88, flags: MOUSEEVENTF_HWHEEL },
        ]
    );
    assert!(mouse_inputs(RemoteAction::Wheel { dx: None, dy: None }).is_empty());
}
