use mac_rdp::input::convert_non_unicode_key;
use mac_rdp::input::InputHandler;
use mac_rdp::input::InputState;
use mac_rdp::input::KeyStroke;
use mac_rdp::input::KeyboardError;
use mac_rdp::input::KeyboardEvent;
use mac_rdp::input::Modifiers;
use mac_rdp::input::MouseAction;
use mac_rdp::input::MouseButton;
use mac_rdp::input::MouseEvent;
use mac_rdp::input::MouseEventType;
use mac_rdp::input::MASK_ALTERNATE;
use mac_rdp::input::MASK_COMMAND;
use mac_rdp::input::MASK_CONTROL;
use mac_rdp::input::MASK_SHIFT;
use mac_rdp::screen::Coord;
use mac_rdp::screen::ScreenSize;
use mac_rdp::screen::ServerPoint;
use tokio::sync::watch;

fn handler_for(client: (u16, u16), server: (u16, u16)) -> (watch::Sender<ScreenSize>, InputHandler) {
    let (sender, receiver) = watch::channel(ScreenSize { client, server });
    (sender, InputHandler::new(receiver))
}

fn no_modifiers() -> Modifiers {
    Modifiers { shift: false, command: false, option: false, control: false }
}

fn key(code: u8, extended: bool) -> Option<u16> {
    let mut modifiers = no_modifiers();
    let key = convert_non_unicode_key(code, extended, true, &mut modifiers);
    key
}

fn value(coord: Coord) -> f64 {
    coord.num as f64 / coord.den as f64
}

#[test]
fn a_new_handler_holds_nothing() {
    let (_sender, handler) = handler_for((800, 600), (800, 600));
    assert_eq!(
        handler.state(),
        InputState {
            last_mouse_point: ServerPoint { x: Coord { num: 0, den: 1 }, y: Coord { num: 0, den: 1 } },
            down_mouse_button: None,
            modifier_state: no_modifiers(),
        }
    );
    assert_eq!(handler.modifier_flags(), 0);
    assert_eq!(Modifiers::default(), no_modifiers());
    assert_eq!(ServerPoint::origin(), handler.state().last_mouse_point);
}

#[test]
fn the_key_table_maps_letters_digits_and_function_keys() {
    assert_eq!(key(30, false), Some(0x00)); // A
    assert_eq!(key(31, false), Some(0x01)); // S
    assert_eq!(key(16, false), Some(0x0C)); // Q
    assert_eq!(key(25, false), Some(0x23)); // P
    assert_eq!(key(39, false), Some(0x29)); // ;
    assert_eq!(key(44, false), Some(0x06)); // Z
    assert_eq!(key(50, false), Some(0x2E)); // M
    assert_eq!(key(2, false), Some(0x12)); // 1
    assert_eq!(key(11, false), Some(0x1B)); // 0
    assert_eq!(key(59, false), Some(0x7A)); // F1
    assert_eq!(key(68, false), Some(0x6D)); // F10
    assert_eq!(key(87, false), Some(0x67)); // F11
    assert_eq!(key(88, false), Some(0x6F)); // F12
    assert_eq!(key(14, false), Some(0x33)); // Delete
    assert_eq!(key(15, false), Some(0x30)); // Tab
    assert_eq!(key(28, false), Some(0x24)); // Return
    assert_eq!(key(1, false), Some(0x35)); // Escape
}

#[test]
fn the_key_table_maps_the_extended_keys() {
    assert_eq!(key(75, true), Some(0x7B)); // Left
    assert_eq!(key(72, true), Some(0x7E)); // Up
    assert_eq!(key(80, true), Some(0x7D)); // Down
    assert_eq!(key(77, true), Some(0x7C)); // Right
    assert_eq!(key(83, true), Some(0x75)); // Forward Delete
    assert_eq!(key(71, true), Some(0x73)); // Home
    assert_eq!(key(79, true), Some(0x77)); // End
    assert_eq!(key(73, true), Some(0x74)); // Page Up
    assert_eq!(key(81, true), Some(0x79)); // Page Down
    assert_eq!(key(91, true), Some(0x37)); // Command
}

#[test]
fn the_key_table_maps_every_listed_row() {
    let letters: [(u8, u16); 27] = [
        (16, 0x0C),
        (17, 0x0D),
        (18, 0x0E),
        (19, 0x0F),
        (20, 0x11),
        (21, 0x10),
        (22, 0x20),
        (23, 0x22),
        (24, 0x1F),
        (25, 0x23),
        (30, 0x00),
        (31, 0x01),
        (32, 0x02),
        (33, 0x03),
        (34, 0x05),
        (35, 0x04),
        (36, 0x26),
        (37, 0x28),
        (38, 0x25),
        (39, 0x29),
        (44, 0x06),
        (45, 0x07),
        (46, 0x08),
        (47, 0x09),
        (48, 0x0B),
        (49, 0x2D),
        (50, 0x2E),
    ];
    for (code, expected) in letters {
        assert_eq!(key(code, false), Some(expected), "scan code {code}");
    }
    let digits: [(u8, u16); 10] = [
        (2, 0x12),
        (3, 0x13),
        (4, 0x14),
        (5, 0x15),
        (6, 0x16),
        (7, 0x17),
        (8, 0x18),
        (9, 0x19),
        (10, 0x1A),
        (11, 0x1B),
    ];
    for (code, expected) in digits {
        assert_eq!(key(code, false), Some(expected), "scan code {code}");
    }
    let function_keys: [(u8, u16); 12] = [
        (59, 0x7A),
        (60, 0x78),
        (61, 0x63),
        (62, 0x76),
        (63, 0x60),
        (64, 0x61),
        (65, 0x62),
        (66, 0x64),
        (67, 0x65),
        (68, 0x6D),
        (87, 0x67),
        (88, 0x6F),
    ];
    for (code, expected) in function_keys {
        assert_eq!(key(code, false), Some(expected), "scan code {code}");
    }
}

#[test]
fn an_unlisted_key_keeps_its_scan_code() {
    assert_eq!(key(12, false), Some(12));
    assert_eq!(key(57, false), Some(57));
    assert_eq!(key(255, false), Some(255));
    assert_eq!(key(0, true), Some(0));
    // The extended flag is part of the key: these are not the listed ones.
    assert_eq!(key(91, false), Some(91));
    assert_eq!(key(29, true), Some(29));
    assert_eq!(key(42, true), Some(42));
    assert_eq!(key(14, true), Some(14));
    assert_eq!(key(75, false), Some(75));
    assert_eq!(key(55, false), Some(55));
    assert_eq!(key(70, true), Some(70));
}

#[test]
fn three_keys_have_no_counterpart() {
    assert_eq!(key(55, true), None); // Print Screen
    assert_eq!(key(70, false), None); // Scroll Lock
    assert_eq!(key(69, false), None); // Break
}

#[test]
fn each_modifier_key_sets_its_own_flag() {
    let cases: [(u8, bool, u16, Modifiers); 4] = [
        (91, true, 0x37, Modifiers { command: true, ..no_modifiers() }),
        (29, false, 0x3B, Modifiers { control: true, ..no_modifiers() }),
        (42, false, 0x38, Modifiers { shift: true, ..no_modifiers() }),
        (56, false, 0x3A, Modifiers { option: true, ..no_modifiers() }),
    ];
    for (code, extended, virtual_key, held) in cases {
        let mut modifiers = no_modifiers();
        assert_eq!(convert_non_unicode_key(code, extended, true, &mut modifiers), Some(virtual_key));
        assert_eq!(modifiers, held);
        assert_eq!(convert_non_unicode_key(code, extended, false, &mut modifiers), Some(virtual_key));
        assert_eq!(modifiers, no_modifiers());
    }
}

#[test]
fn a_modifier_key_leaves_the_other_flags_alone() {
    let all = Modifiers { shift: true, command: true, option: true, control: true };
    let mut modifiers = all;
    convert_non_unicode_key(42, false, false, &mut modifiers);
    assert_eq!(modifiers, Modifiers { shift: false, ..all });
    convert_non_unicode_key(42, false, true, &mut modifiers);
    assert_eq!(modifiers, all);
    convert_non_unicode_key(91, true, false, &mut modifiers);
    assert_eq!(modifiers, Modifiers { command: false, ..all });
    let mut modifiers = all;
    convert_non_unicode_key(30, false, true, &mut modifiers);
    convert_non_unicode_key(55, true, true, &mut modifiers);
    assert_eq!(modifiers, all);
}

#[test]
fn flags_are_the_bits_of_the_held_keys() {
    assert_eq!(MASK_SHIFT, 131072);
    assert_eq!(MASK_CONTROL, 262144);
    assert_eq!(MASK_ALTERNATE, 524288);
    assert_eq!(MASK_COMMAND, 1048576);
    assert_eq!(no_modifiers().flags(), 0);
    assert_eq!(Modifiers { shift: true, ..no_modifiers() }.flags(), 0x2_0000);
    assert_eq!(Modifiers { control: true, ..no_modifiers() }.flags(), 0x4_0000);
    assert_eq!(Modifiers { option: true, ..no_modifiers() }.flags(), 0x8_0000);
    assert_eq!(Modifiers { command: true, ..no_modifiers() }.flags(), 0x10_0000);
    assert_eq!(Modifiers { command: true, shift: true, ..no_modifiers() }.flags(), 0x12_0000);
    assert_eq!(
        Modifiers { shift: true, command: true, option: true, control: true }.flags(),
        0x1E_0000
    );
}

#[test]
fn a_key_pressed_with_shift_held_carries_the_shift_flag() {
    let (_sender, mut handler) = handler_for((800, 600), (800, 600));
    let shift = handler.convert_keyboard_event(KeyboardEvent::Pressed { code: 42, extended: false });
    assert_eq!(
        shift,
        Ok(KeyStroke { virtual_key: 0x38, key_down: true, flags: MASK_SHIFT, unicode: None })
    );
    let a = handler.convert_keyboard_event(KeyboardEvent::Pressed { code: 30, extended: false });
    assert_eq!(a, Ok(KeyStroke { virtual_key: 0, key_down: true, flags: MASK_SHIFT, unicode: None }));
    assert_eq!(handler.modifier_flags(), MASK_SHIFT);
    let released = handler.convert_keyboard_event(KeyboardEvent::Released { code: 42, extended: false });
    assert_eq!(released, Ok(KeyStroke { virtual_key: 0x38, key_down: false, flags: 0, unicode: None }));
    let a = handler.convert_keyboard_event(KeyboardEvent::Released { code: 30, extended: false });
    assert_eq!(a, Ok(KeyStroke { virtual_key: 0, key_down: false, flags: 0, unicode: None }));
    assert_eq!(handler.state().modifier_state, no_modifiers());
}

#[test]
fn press_and_release_of_command_toggle_only_command() {
    let (_sender, mut handler) = handler_for((800, 600), (800, 600));
    handler.convert_keyboard_event(KeyboardEvent::Pressed { code: 29, extended: false }).unwrap();
    let before = handler.state().modifier_state;
    assert_eq!(before, Modifiers { control: true, ..no_modifiers() });
    let down = handler.convert_keyboard_event(KeyboardEvent::Pressed { code: 91, extended: true });
    assert_eq!(
        down,
        Ok(KeyStroke {
            virtual_key: 0x37,
            key_down: true,
            flags: MASK_COMMAND | MASK_CONTROL,
            unicode: None
        })
    );
    assert_eq!(handler.state().modifier_state, Modifiers { command: true, ..before });
    let up = handler.convert_keyboard_event(KeyboardEvent::Released { code: 91, extended: true });
    assert_eq!(
        up,
        Ok(KeyStroke { virtual_key: 0x37, key_down: false, flags: MASK_CONTROL, unicode: None })
    );
    assert_eq!(handler.state().modifier_state, before);
}

#[test]
fn a_character_event_passes_by_table_and_modifiers() {
    let (_sender, mut handler) = handler_for((800, 600), (800, 600));
    handler.convert_keyboard_event(KeyboardEvent::Pressed { code: 42, extended: false }).unwrap();
    let before = handler.state();
    let down = handler.convert_keyboard_event(KeyboardEvent::UnicodePressed(0x3042));
    assert_eq!(
        down,
        Ok(KeyStroke { virtual_key: 0, key_down: true, flags: 0, unicode: Some(0x3042) })
    );
    let up = handler.convert_keyboard_event(KeyboardEvent::UnicodeReleased(0x3042));
    assert_eq!(
        up,
        Ok(KeyStroke { virtual_key: 0, key_down: false, flags: 0, unicode: Some(0x3042) })
    );
    assert_eq!(handler.state(), before);
}

#[test]
fn a_key_without_counterpart_is_an_unknown_code() {
    let (_sender, mut handler) = handler_for((800, 600), (800, 600));
    let before = handler.state();
    assert_eq!(
        handler.convert_keyboard_event(KeyboardEvent::Pressed { code: 55, extended: true }),
        Err(KeyboardError::UnknownCode { code: 55, extended: true })
    );
    assert_eq!(
        handler.convert_keyboard_event(KeyboardEvent::Released { code: 70, extended: false }),
        Err(KeyboardError::UnknownCode { code: 70, extended: false })
    );
    assert_eq!(
        handler.convert_keyboard_event(KeyboardEvent::Pressed { code: 69, extended: false }),
        Err(KeyboardError::UnknownCode { code: 69, extended: false })
    );
    assert_eq!(handler.state(), before);
}

#[test]
fn a_synchronize_event_is_unhandled() {
    let (_sender, mut handler) = handler_for((800, 600), (800, 600));
    handler.convert_keyboard_event(KeyboardEvent::Pressed { code: 56, extended: false }).unwrap();
    let before = handler.state();
    assert_eq!(
        handler.convert_keyboard_event(KeyboardEvent::Synchronize(0b111)),
        Err(KeyboardError::Unhandled)
    );
    assert_eq!(handler.state(), before);
}

#[test]
fn a_move_scales_from_client_to_server_space() {
    let (_sender, mut handler) = handler_for((1280, 720), (2560, 1440));
    let action = handler.mouse(MouseEvent::Move { x: 640, y: 360 });
    let at = match action {
        MouseAction::MoveCursor { at } => at,
        other => panic!("{other:?}"),
    };
    assert_eq!(at.x, Coord { num: 640 * 2560, den: 1280 });
    assert_eq!(at.y, Coord { num: 360 * 1440, den: 720 });
    assert_eq!(value(at.x), 1280.0);
    assert_eq!(value(at.y), 720.0);
    assert_eq!(handler.state().last_mouse_point, at);
    assert_eq!(handler.state().down_mouse_button, None);
}

#[test]
fn a_move_keeps_fractions_of_a_pixel() {
    let (_sender, mut handler) = handler_for((1280, 800), (1920, 1200));
    let action = handler.mouse(MouseEvent::Move { x: 1, y: 3 });
    let at = match action {
        MouseAction::MoveCursor { at } => at,
        other => panic!("{other:?}"),
    };
    assert_eq!(value(at.x), 1.5);
    assert_eq!(value(at.y), 4.5);
}

#[test]
fn a_move_reads_the_size_that_the_channel_holds() {
    let (sender, mut handler) = handler_for((100, 100), (100, 100));
    assert_eq!(
        handler.mouse(MouseEvent::Move { x: 10, y: 20 }),
        MouseAction::MoveCursor {
            at: ServerPoint { x: Coord { num: 1000, den: 100 }, y: Coord { num: 2000, den: 100 } }
        }
    );
    sender.send(ScreenSize { client: (50, 25), server: (100, 100) }).unwrap();
    assert_eq!(
        handler.mouse(MouseEvent::Move { x: 10, y: 20 }),
        MouseAction::MoveCursor {
            at: ServerPoint { x: Coord { num: 1000, den: 50 }, y: Coord { num: 2000, den: 25 } }
        }
    );
}

#[test]
fn a_move_with_the_left_button_held_is_a_left_drag() {
    let (_sender, mut handler) = handler_for((100, 100), (200, 200));
    let origin = ServerPoint::origin();
    assert_eq!(
        handler.mouse(MouseEvent::LeftPressed),
        MouseAction::Post {
            event_type: MouseEventType::LeftMouseDown,
            at: origin,
            button: MouseButton::Left
        }
    );
    assert_eq!(handler.state().down_mouse_button, Some(MouseButton::Left));
    let at = ServerPoint { x: Coord { num: 2000, den: 100 }, y: Coord { num: 4000, den: 100 } };
    assert_eq!(
        handler.mouse(MouseEvent::Move { x: 10, y: 20 }),
        MouseAction::Post {
            event_type: MouseEventType::LeftMouseDragged,
            at,
            button: MouseButton::Left
        }
    );
    assert_eq!(
        handler.mouse(MouseEvent::LeftReleased),
        MouseAction::Post { event_type: MouseEventType::LeftMouseUp, at, button: MouseButton::Left }
    );
    assert_eq!(handler.state().down_mouse_button, None);
    assert_eq!(handler.mouse(MouseEvent::Move { x: 10, y: 20 }), MouseAction::MoveCursor { at });
}

#[test]
fn a_move_with_the_right_button_held_is_a_right_drag() {
    let (_sender, mut handler) = handler_for((100, 100), (100, 100));
    assert_eq!(
        handler.mouse(MouseEvent::RightPressed),
        MouseAction::Post {
            event_type: MouseEventType::RightMouseDown,
            at: ServerPoint::origin(),
            button: MouseButton::Right
        }
    );
    let at = ServerPoint { x: Coord { num: 500, den: 100 }, y: Coord { num: 600, den: 100 } };
    assert_eq!(
        handler.mouse(MouseEvent::Move { x: 5, y: 6 }),
        MouseAction::Post {
            event_type: MouseEventType::RightMouseDragged,
            at,
            button: MouseButton::Right
        }
    );
    assert_eq!(
        handler.mouse(MouseEvent::RightReleased),
        MouseAction::Post {
            event_type: MouseEventType::RightMouseUp,
            at,
            button: MouseButton::Right
        }
    );
    assert_eq!(handler.state().down_mouse_button, None);
}

#[test]
fn one_button_is_tracked_at_a_time() {
    let (_sender, mut handler) = handler_for((100, 100), (100, 100));
    handler.mouse(MouseEvent::LeftPressed);
    handler.mouse(MouseEvent::RightPressed);
    assert_eq!(handler.state().down_mouse_button, Some(MouseButton::Right));
    // Releasing either button leaves none held.
    handler.mouse(MouseEvent::LeftReleased);
    assert_eq!(handler.state().down_mouse_button, None);
    assert!(matches!(
        handler.mouse(MouseEvent::Move { x: 1, y: 1 }),
        MouseAction::MoveCursor { .. }
    ));
}

#[test]
fn a_vertical_scroll_is_a_pixel_scroll() {
    let (_sender, mut handler) = handler_for((100, 100), (100, 100));
    let before = handler.state();
    assert_eq!(
        handler.mouse(MouseEvent::VerticalScroll { value: 120 }),
        MouseAction::Scroll { value: 120 }
    );
    assert_eq!(
        handler.mouse(MouseEvent::VerticalScroll { value: -120 }),
        MouseAction::Scroll { value: -120 }
    );
    assert_eq!(
        handler.mouse(MouseEvent::VerticalScroll { value: i16::MIN }),
        MouseAction::Scroll { value: -32768 }
    );
    assert_eq!(handler.state(), before);
}

#[test]
fn other_mouse_events_are_ignored() {
    let (_sender, mut handler) = handler_for((100, 100), (100, 100));
    handler.mouse(MouseEvent::LeftPressed);
    let before = handler.state();
    let events = [
        MouseEvent::MiddlePressed,
        MouseEvent::MiddleReleased,
        MouseEvent::Button4Pressed,
        MouseEvent::Button4Released,
        MouseEvent::Button5Pressed,
        MouseEvent::Button5Released,
        MouseEvent::Scroll { x: 3, y: -4 },
        MouseEvent::RelMove { x: 3, y: -4 },
    ];
    for event in events {
        assert_eq!(handler.mouse(event), MouseAction::Ignore, "{event:?}");
        assert_eq!(handler.state(), before);
    }
}

#[test]
fn mouse_events_leave_the_modifiers_alone() {
    let (_sender, mut handler) = handler_for((100, 100), (100, 100));
    handler.convert_keyboard_event(KeyboardEvent::Pressed { code: 91, extended: true }).unwrap();
    handler.mouse(MouseEvent::LeftPressed);
    handler.mouse(MouseEvent::Move { x: 7, y: 7 });
    handler.mouse(MouseEvent::LeftReleased);
    assert_eq!(handler.state().modifier_state, Modifiers { command: true, ..no_modifiers() });
    // And keys leave pointer and button alone.
    handler.mouse(MouseEvent::RightPressed);
    let before = handler.state();
    handler.convert_keyboard_event(KeyboardEvent::Released { code: 91, extended: true }).unwrap();
    assert_eq!(handler.state().last_mouse_point, before.last_mouse_point);
    assert_eq!(handler.state().down_mouse_button, Some(MouseButton::Right));
}

#[test]
fn pointer_moved_scales_by_the_given_size() {
    let (_sender, mut handler) = handler_for((1, 1), (1, 1));
    let size = ScreenSize { client: (1280, 720), server: (2560, 1440) };
    let action = handler.pointer_moved(640, 360, size);
    assert_eq!(
        action,
        MouseAction::MoveCursor {
            at: ServerPoint {
                x: Coord { num: 1_638_400, den: 1280 },
                y: Coord { num: 518_400, den: 720 }
            }
        }
    );
    handler.mouse(MouseEvent::LeftPressed);
    let action = handler.pointer_moved(65535, 65535, ScreenSize { client: (0, 0), server: (65535, 65535) });
    assert_eq!(
        action,
        MouseAction::Post {
            event_type: MouseEventType::LeftMouseDragged,
            at: ServerPoint {
                x: Coord { num: 4_294_836_225, den: 0 },
                y: Coord { num: 4_294_836_225, den: 0 }
            },
            button: MouseButton::Left
        }
    );
}
