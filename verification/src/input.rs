//! The input translator: from the keyboard and mouse events of the remote side
//! to the events to inject on the host.
//!
//! Nothing here touches the operating system.  Every function answers with a
//! plain description of what is to be injected ([`KeyStroke`], [`MouseAction`]);
//! the caller builds the native event from it and posts it.

use crate::screen::{ScreenSize, ServerPoint};
use vstd::prelude::*;

verus! {

/// Event flag bit of the Shift key.
pub const MASK_SHIFT: u64 = 0x2_0000;

/// Event flag bit of the Control key.
pub const MASK_CONTROL: u64 = 0x4_0000;

/// Event flag bit of the Option (Alt) key.
pub const MASK_ALTERNATE: u64 = 0x8_0000;

/// Event flag bit of the Command key.
pub const MASK_COMMAND: u64 = 0x10_0000;

/// Which modifier keys the remote side currently holds down.
#[derive(Debug, Clone, Copy, PartialEq, Eq, Structural)]
pub struct Modifiers {
    pub shift: bool,
    pub command: bool,
    pub option: bool,
    pub control: bool,
}

/// The four keys whose state is kept between events.
#[derive(Debug, Clone, Copy, PartialEq, Eq, Structural)]
pub enum ModifierKey {
    Shift,
    Command,
    Option,
    Control,
}

/// A keyboard event as the remote side sends it.
#[derive(Debug, Clone, Copy, PartialEq, Eq, Structural)]
pub enum KeyboardEvent {
    /// A key went down, named by its scan code.
    Pressed { code: u8, extended: bool },
    /// A key went up, named by its scan code.
    Released { code: u8, extended: bool },
    /// A character, as one UTF-16 code unit, went down.
    UnicodePressed(u16),
    /// A character, as one UTF-16 code unit, went up.
    UnicodeReleased(u16),
    /// The lock keys' state, which is not translated.
    Synchronize(u8),
}

/// The key event to inject.
#[derive(Debug, Clone, Copy, PartialEq, Eq, Structural)]
pub struct KeyStroke {
    /// Virtual key code of the host; 0 for a character event.
    pub virtual_key: u16,
    /// Key down (`true`) or key up.
    pub key_down: bool,
    /// Modifier flags to set on the event; 0 leaves the event's flags alone.
    pub flags: u64,
    /// The UTF-16 code unit that the event carries, for a character event.
    pub unicode: Option<u16>,
}

/// Why a keyboard event produced no key stroke.
#[derive(Debug, Clone, Copy, PartialEq, Eq, Structural)]
pub enum KeyboardError {
    /// The scan code names a key that has no counterpart on the host.
    UnknownCode { code: u8, extended: bool },
    /// The event is of a kind that is not translated.
    Unhandled,
}

/// A mouse event as the remote side sends it.
#[derive(Debug, Clone, Copy, PartialEq, Eq, Structural)]
#[allow(inconsistent_fields)]
pub enum MouseEvent {
    Move { x: u16, y: u16 },
    RightPressed,
    RightReleased,
    LeftPressed,
    LeftReleased,
    MiddlePressed,
    MiddleReleased,
    Button4Pressed,
    Button4Released,
    Button5Pressed,
    Button5Released,
    VerticalScroll { value: i16 },
    Scroll { x: i32, y: i32 },
    RelMove { x: i32, y: i32 },
}

/// A mouse button that can be tracked as held.
#[derive(Debug, Clone, Copy, PartialEq, Eq, Structural)]
pub enum MouseButton {
    Left,
    Right,
}

/// The kind of a mouse event to inject.
#[derive(Debug, Clone, Copy, PartialEq, Eq, Structural)]
pub enum MouseEventType {
    LeftMouseDown,
    LeftMouseUp,
    RightMouseDown,
    RightMouseUp,
    LeftMouseDragged,
    RightMouseDragged,
}

/// What to do on the host for one mouse event.
#[derive(Debug, Clone, Copy, PartialEq, Eq, Structural)]
pub enum MouseAction {
    /// Inject a button or drag event at `at`.
    Post { event_type: MouseEventType, at: ServerPoint, button: MouseButton },
    /// Move the cursor to `at` without injecting an event.
    MoveCursor { at: ServerPoint },
    /// Inject a scroll of `value` pixels on the vertical wheel.
    Scroll { value: i32 },
    /// The event is of a kind that is not translated: nothing is injected.
    Ignore,
}

/// What an input handler remembers between events.
#[derive(Debug, Clone, Copy, PartialEq, Eq, Structural)]
pub struct InputState {
    /// Where the pointer was last moved to.
    pub last_mouse_point: ServerPoint,
    /// The button that is held, if one is.
    pub down_mouse_button: Option<MouseButton>,
    /// The modifier keys that are held.
    pub modifier_state: Modifiers,
}

/// The host's virtual key for a scan code: `None` for the three keys without a
/// counterpart (Print Screen, Scroll Lock, Break), the table's entry for the keys
/// it lists, and the scan code itself for every other key.
pub open spec fn virtual_key(code: u8, extended: bool) -> Option<u16> {
    match (code, extended) {
        (55, true) | (70, false) | (69, false) => None,
        // Escape, digits, Delete, Tab
        (1, false) => Some(0x35u16),
        (2, false) => Some(0x12u16),
        (3, false) => Some(0x13u16),
        (4, false) => Some(0x14u16),
        (5, false) => Some(0x15u16),
        (6, false) => Some(0x16u16),
        (7, false) => Some(0x17u16),
        (8, false) => Some(0x18u16),
        (9, false) => Some(0x19u16),
        (10, false) => Some(0x1Au16),
        (11, false) => Some(0x1Bu16),
        (14, false) => Some(0x33u16),
        (15, false) => Some(0x30u16),
        // Q W E R T Y U I O P
        (16, false) => Some(0x0Cu16),
        (17, false) => Some(0x0Du16),
        (18, false) => Some(0x0Eu16),
        (19, false) => Some(0x0Fu16),
        (20, false) => Some(0x11u16),
        (21, false) => Some(0x10u16),
        (22, false) => Some(0x20u16),
        (23, false) => Some(0x22u16),
        (24, false) => Some(0x1Fu16),
        (25, false) => Some(0x23u16),
        // Return, Control
        (28, false) => Some(0x24u16),
        (29, false) => Some(0x3Bu16),
        // A S D F G H J K L ;
        (30, false) => Some(0x00u16),
        (31, false) => Some(0x01u16),
        (32, false) => Some(0x02u16),
        (33, false) => Some(0x03u16),
        (34, false) => Some(0x05u16),
        (35, false) => Some(0x04u16),
        (36, false) => Some(0x26u16),
        (37, false) => Some(0x28u16),
        (38, false) => Some(0x25u16),
        (39, false) => Some(0x29u16),
        // Left Shift
        (42, false) => Some(0x38u16),
        // Z X C V B N M
        (44, false) => Some(0x06u16),
        (45, false) => Some(0x07u16),
        (46, false) => Some(0x08u16),
        (47, false) => Some(0x09u16),
        (48, false) => Some(0x0Bu16),
        (49, false) => Some(0x2Du16),
        (50, false) => Some(0x2Eu16),
        // Left Option
        (56, false) => Some(0x3Au16),
        // F1 .. F12
        (59, false) => Some(0x7Au16),
        (60, false) => Some(0x78u16),
        (61, false) => Some(0x63u16),
        (62, false) => Some(0x76u16),
        (63, false) => Some(0x60u16),
        (64, false) => Some(0x61u16),
        (65, false) => Some(0x62u16),
        (66, false) => Some(0x64u16),
        (67, false) => Some(0x65u16),
        (68, false) => Some(0x6Du16),
        (87, false) => Some(0x67u16),
        (88, false) => Some(0x6Fu16),
        // Home, Up, Page Up, Left, Right, End, Down, Page Down, Forward Delete
        (71, true) => Some(0x73u16),
        (72, true) => Some(0x7Eu16),
        (73, true) => Some(0x74u16),
        (75, true) => Some(0x7Bu16),
        (77, true) => Some(0x7Cu16),
        (79, true) => Some(0x77u16),
        (80, true) => Some(0x7Du16),
        (81, true) => Some(0x79u16),
        (83, true) => Some(0x75u16),
        // Command
        (91, true) => Some(0x37u16),
        _ => Some(code as u16),
    }
}

/// The modifier key, if any, that a scan code names.
pub open spec fn modifier_of(code: u8, extended: bool) -> Option<ModifierKey> {
    if code == 91 && extended {
        Some(ModifierKey::Command)
    } else if code == 29 && !extended {
        Some(ModifierKey::Control)
    } else if code == 42 && !extended {
        Some(ModifierKey::Shift)
    } else if code == 56 && !extended {
        Some(ModifierKey::Option)
    } else {
        None
    }
}

impl Modifiers {
    /// No modifier is held.
    pub open spec fn spec_none() -> Modifiers {
        Modifiers { shift: false, command: false, option: false, control: false }
    }

    /// Whether `key` is held.
    pub open spec fn holds(self, key: ModifierKey) -> bool {
        match key {
            ModifierKey::Shift => self.shift,
            ModifierKey::Command => self.command,
            ModifierKey::Option => self.option,
            ModifierKey::Control => self.control,
        }
    }

    /// The state with `key` set to `held` and the other three keys as they are.
    pub open spec fn with(self, key: ModifierKey, held: bool) -> Modifiers {
        match key {
            ModifierKey::Shift => Modifiers { shift: held, ..self },
            ModifierKey::Command => Modifiers { command: held, ..self },
            ModifierKey::Option => Modifiers { option: held, ..self },
            ModifierKey::Control => Modifiers { control: held, ..self },
        }
    }

    /// The state after the key with this scan code went down (`pressed`) or up.
    pub open spec fn after_key(self, code: u8, extended: bool, pressed: bool) -> Modifiers {
        match modifier_of(code, extended) {
            Some(key) => self.with(key, pressed),
            None => self,
        }
    }

    /// The event flags of the held keys: the sum of their bits.
    pub open spec fn spec_flags(self) -> u64 {
        ((if self.command { MASK_COMMAND } else { 0 })
            + (if self.control { MASK_CONTROL } else { 0 })
            + (if self.option { MASK_ALTERNATE } else { 0 })
            + (if self.shift { MASK_SHIFT } else { 0 })) as u64
    }

    /// The event flags that stand for the held keys, each key by its own bit.
    pub fn flags(&self) -> (flags: u64)
        ensures
            flags == self.spec_flags(),
            flags == 0 <==> *self == Modifiers::spec_none(),
    {
        let mut flags: u64 = 0;
        if self.command {
            flags = flags | MASK_COMMAND;
        }
        proof {
            assert(0u64 | 0x10_0000u64 == 0x10_0000u64) by (bit_vector);
        }
        let ghost with_command = flags;
        if self.control {
            flags = flags | MASK_CONTROL;
        }
        proof {
            assert(with_command | 0x4_0000u64 == with_command + 0x4_0000u64) by (bit_vector)
                requires
                    with_command == 0 || with_command == 0x10_0000u64,
            ;
        }
        let ghost with_control = flags;
        if self.option {
            flags = flags | MASK_ALTERNATE;
        }
        proof {
            assert(with_control | 0x8_0000u64 == with_control + 0x8_0000u64) by (bit_vector)
                requires
                    with_control == 0 || with_control == 0x10_0000u64 || with_control
                        == 0x4_0000u64 || with_control == 0x14_0000u64,
            ;
        }
        let ghost with_option = flags;
        if self.shift {
            flags = flags | MASK_SHIFT;
        }
        proof {
            assert(with_option | 0x2_0000u64 == with_option + 0x2_0000u64) by (bit_vector)
                requires
                    with_option == 0 || with_option == 0x10_0000u64 || with_option
                        == 0x4_0000u64 || with_option == 0x14_0000u64 || with_option
                        == 0x8_0000u64 || with_option == 0x18_0000u64 || with_option
                        == 0xC_0000u64 || with_option == 0x1C_0000u64,
            ;
        }
        flags
    }
}

impl Default for Modifiers {
    fn default() -> (m: Modifiers)
        ensures
            m == Modifiers::spec_none(),
    {
        Modifiers { shift: false, command: false, option: false, control: false }
    }
}

/// What one keyboard event does: the modifier state after it, and the key stroke
/// to inject or the reason why there is none.
///
/// A scan code is looked up in the table, after the modifier state took note of
/// it; the stroke carries the flags of that new state.  A character event passes
/// by the table and by the modifier state, and carries no flags.
pub open spec fn keyboard_step(modifiers: Modifiers, event: KeyboardEvent) -> (
    Modifiers,
    Result<KeyStroke, KeyboardError>,
) {
    match event {
        KeyboardEvent::Pressed { code, extended } => scan_code_step(
            modifiers,
            code,
            extended,
            true,
        ),
        KeyboardEvent::Released { code, extended } => scan_code_step(
            modifiers,
            code,
            extended,
            false,
        ),
        KeyboardEvent::UnicodePressed(unit) => (
            modifiers,
            Ok(KeyStroke { virtual_key: 0, key_down: true, flags: 0, unicode: Some(unit) }),
        ),
        KeyboardEvent::UnicodeReleased(unit) => (
            modifiers,
            Ok(KeyStroke { virtual_key: 0, key_down: false, flags: 0, unicode: Some(unit) }),
        ),
        KeyboardEvent::Synchronize(_) => (modifiers, Err(KeyboardError::Unhandled)),
    }
}

/// [`keyboard_step`] for a key named by its scan code.
pub open spec fn scan_code_step(modifiers: Modifiers, code: u8, extended: bool, pressed: bool) -> (
    Modifiers,
    Result<KeyStroke, KeyboardError>,
) {
    let after = modifiers.after_key(code, extended, pressed);
    match virtual_key(code, extended) {
        Some(key) => (
            after,
            Ok(
                KeyStroke {
                    virtual_key: key,
                    key_down: pressed,
                    flags: after.spec_flags(),
                    unicode: None,
                },
            ),
        ),
        None => (after, Err(KeyboardError::UnknownCode { code, extended })),
    }
}

/// Looks a scan code up in the key table and lets the modifier state take note
/// of it.
///
/// Returns the host's virtual key, or `None` for a key without a counterpart.  A
/// key that the table does not list keeps its scan code as its virtual key.
pub fn convert_non_unicode_key(code: u8, extended: bool, pressed: bool, modifier: &mut Modifiers) -> (key:
    Option<u16>)
    ensures
        key == virtual_key(code, extended),
        *final(modifier) == old(modifier).after_key(code, extended, pressed),
{
    Some(
        match (code, extended) {
            // Delete
            (14, false) => 0x33,
            // Command
            (91, true) => {
                modifier.command = pressed;
                0x37
            },
            // Control
            (29, false) => {
                modifier.control = pressed;
                0x3B
            },
            // Left Shift
            (42, false) => {
                modifier.shift = pressed;
                0x38
            },
            // Left Option
            (56, false) => {
                modifier.option = pressed;
                0x3A
            },
            // Return
            (28, false) => 0x24,
            // Q W E R T Y U I O P
            (16, false) => 0x0C,
            (17, false) => 0x0D,
            (18, false) => 0x0E,
            (19, false) => 0x0F,
            (20, false) => 0x11,
            (21, false) => 0x10,
            (22, false) => 0x20,
            (23, false) => 0x22,
            (24, false) => 0x1F,
            (25, false) => 0x23,
            // A S D F G H J K L ;
            (30, false) => 0x00,
            (31, false) => 0x01,
            (32, false) => 0x02,
            (33, false) => 0x03,
            (34, false) => 0x05,
            (35, false) => 0x04,
            (36, false) => 0x26,
            (37, false) => 0x28,
            (38, false) => 0x25,
            (39, false) => 0x29,
            // Z X C V B N M
            (44, false) => 0x06,
            (45, false) => 0x07,
            (46, false) => 0x08,
            (47, false) => 0x09,
            (48, false) => 0x0B,
            (49, false) => 0x2D,
            (50, false) => 0x2E,
            // F1 .. F12
            (59, false) => 0x7A,
            (60, false) => 0x78,
            (61, false) => 0x63,
            (62, false) => 0x76,
            (63, false) => 0x60,
            (64, false) => 0x61,
            (65, false) => 0x62,
            (66, false) => 0x64,
            (67, false) => 0x65,
            (68, false) => 0x6D,
            (87, false) => 0x67,
            (88, false) => 0x6F,
            // Tab
            (15, false) => 0x30,
            // Arrows: left, up, down, right
            (75, true) => 0x7B,
            (72, true) => 0x7E,
            (80, true) => 0x7D,
            (77, true) => 0x7C,
            // Forward Delete
            (83, true) => 0x75,
            // Home, End, Page Up, Page Down
            (71, true) => 0x73,
            (79, true) => 0x77,
            (73, true) => 0x74,
            (81, true) => 0x79,
            // Escape
            (1, false) => 0x35,
            // Print Screen, Scroll Lock, Break
            (55, true) => return None,
            (70, false) => return None,
            (69, false) => return None,
            // 1 .. 0
            (2, false) => 0x12,
            (3, false) => 0x13,
            (4, false) => 0x14,
            (5, false) => 0x15,
            (6, false) => 0x16,
            (7, false) => 0x17,
            (8, false) => 0x18,
            (9, false) => 0x19,
            (10, false) => 0x1A,
            (11, false) => 0x1B,
            _ => code as u16,
        },
    )
}

/// What a button, scroll or other event that is no `Move` does to the state, and
/// the action it asks for.
///
/// A press makes its button the held one, a release leaves no button held,
/// whichever was held before: one button is tracked at a time.
pub open spec fn button_step(state: InputState, event: MouseEvent) -> (InputState, MouseAction) {
    let at = state.last_mouse_point;
    match event {
        MouseEvent::LeftPressed => (
            InputState { down_mouse_button: Some(MouseButton::Left), ..state },
            MouseAction::Post {
                event_type: MouseEventType::LeftMouseDown,
                at,
                button: MouseButton::Left,
            },
        ),
        MouseEvent::LeftReleased => (
            InputState { down_mouse_button: None, ..state },
            MouseAction::Post {
                event_type: MouseEventType::LeftMouseUp,
                at,
                button: MouseButton::Left,
            },
        ),
        MouseEvent::RightPressed => (
            InputState { down_mouse_button: Some(MouseButton::Right), ..state },
            MouseAction::Post {
                event_type: MouseEventType::RightMouseDown,
                at,
                button: MouseButton::Right,
            },
        ),
        MouseEvent::RightReleased => (
            InputState { down_mouse_button: None, ..state },
            MouseAction::Post {
                event_type: MouseEventType::RightMouseUp,
                at,
                button: MouseButton::Right,
            },
        ),
        MouseEvent::VerticalScroll { value } => (state, MouseAction::Scroll { value: value as i32 }),
        _ => (state, MouseAction::Ignore),
    }
}

/// The drag event that belongs to a held button.
pub open spec fn drag_type(button: MouseButton) -> MouseEventType {
    match button {
        MouseButton::Left => MouseEventType::LeftMouseDragged,
        MouseButton::Right => MouseEventType::RightMouseDragged,
    }
}

/// What a `Move` to the client-space point `(x, y)` does under the screen size
/// `size`: the pointer's position becomes the scaled point, and the action is a
/// drag with the held button, or a plain cursor move when none is held.
pub open spec fn move_step(state: InputState, x: u16, y: u16, size: ScreenSize) -> (
    InputState,
    MouseAction,
) {
    let at = size.spec_scale(x, y);
    let moved = InputState { last_mouse_point: at, ..state };
    match state.down_mouse_button {
        Some(button) => (
            moved,
            MouseAction::Post { event_type: drag_type(button), at, button },
        ),
        None => (moved, MouseAction::MoveCursor { at }),
    }
}

/// [`button_step`] or [`move_step`], whichever the event calls for.
pub open spec fn mouse_step(state: InputState, event: MouseEvent, size: ScreenSize) -> (
    InputState,
    MouseAction,
) {
    match event {
        MouseEvent::Move { x, y } => move_step(state, x, y, size),
        _ => button_step(state, event),
    }
}

impl InputState {
    /// The state of a fresh handler: pointer at the origin, nothing held.
    pub open spec fn spec_initial() -> InputState {
        InputState {
            last_mouse_point: ServerPoint::spec_origin(),
            down_mouse_button: None,
            modifier_state: Modifiers::spec_none(),
        }
    }
}

/// `tokio::sync::watch::Receiver`: the receiving end of a watch channel.
/// Nothing inside it is visible to the verifier; it is only carried along and
/// asked for its latest value.
#[verifier::external_type_specification]
#[verifier::external_body]
#[verifier::reject_recursive_types(T)]
pub struct ExWatchReceiver<T>(tokio::sync::watch::Receiver<T>);

/// Calls `tokio::sync::watch::Receiver::borrow_and_update` and copies the value
/// out of the guard it returns.
///
/// The value is the one most recently sent on the channel, by whoever holds the
/// sending end: nothing is claimed of it.  The call takes a read lock for the
/// length of the copy and does not panic.
#[verifier::external_body]
fn latest_screen_size(receiver: &mut tokio::sync::watch::Receiver<ScreenSize>) -> (size:
    ScreenSize) {
    *receiver.borrow_and_update()
}

/// Translates the input events of one connection, in the order they arrive.
///
/// It remembers which modifier keys and which mouse button are held and where
/// the pointer is, and it watches the screen size in order to scale pointer
/// positions from the client's resolution to the server's.
pub struct InputHandler {
    last_mouse_point: ServerPoint,
    down_mouse_button: Option<MouseButton>,
    modifier_state: Modifiers,
    client_screen_size: tokio::sync::watch::Receiver<ScreenSize>,
}

impl View for InputHandler {
    type V = InputState;

    closed spec fn view(&self) -> InputState {
        InputState {
            last_mouse_point: self.last_mouse_point,
            down_mouse_button: self.down_mouse_button,
            modifier_state: self.modifier_state,
        }
    }
}

impl InputHandler {
    /// The channel end from which the screen size is read.
    pub closed spec fn watched(&self) -> tokio::sync::watch::Receiver<ScreenSize> {
        self.client_screen_size
    }

    /// A handler with the pointer at the origin and no key or button held, which
    /// reads the screen size from `client_screen_size`.
    pub fn new(client_screen_size: tokio::sync::watch::Receiver<ScreenSize>) -> (handler: Self)
        ensures
            handler@ == InputState::spec_initial(),
            handler.watched() == client_screen_size,
    {
        Self {
            last_mouse_point: ServerPoint::origin(),
            down_mouse_button: None,
            modifier_state: Modifiers::default(),
            client_screen_size,
        }
    }

    /// What the handler remembers at this moment.
    pub fn state(&self) -> (state: InputState)
        ensures
            state == self@,
    {
        InputState {
            last_mouse_point: self.last_mouse_point,
            down_mouse_button: self.down_mouse_button,
            modifier_state: self.modifier_state,
        }
    }

    /// The flags of the held modifier keys, as they are set on an injected key
    /// event.
    pub fn modifier_flags(&self) -> (flags: u64)
        ensures
            flags == self@.modifier_state.spec_flags(),
    {
        self.modifier_state.flags()
    }

    /// Translates one keyboard event into the key stroke to inject.
    ///
    /// Fails with `UnknownCode` for a key without a counterpart on the host and
    /// with `Unhandled` for an event that is neither a key nor a character; the
    /// pointer and the held button are never touched.
    pub fn convert_keyboard_event(&mut self, event: KeyboardEvent) -> (stroke: Result<
        KeyStroke,
        KeyboardError,
    >)
        ensures
            (final(self)@.modifier_state, stroke) == keyboard_step(old(self)@.modifier_state, event),
            final(self)@.last_mouse_point == old(self)@.last_mouse_point,
            final(self)@.down_mouse_button == old(self)@.down_mouse_button,
            final(self).watched() == old(self).watched(),
    {
        match event {
            KeyboardEvent::Pressed { code, extended } => {
                match convert_non_unicode_key(code, extended, true, &mut self.modifier_state) {
                    Some(key) => Ok(
                        KeyStroke {
                            virtual_key: key,
                            key_down: true,
                            flags: self.modifier_state.flags(),
                            unicode: None,
                        },
                    ),
                    None => Err(KeyboardError::UnknownCode { code, extended }),
                }
            },
            KeyboardEvent::Released { code, extended } => {
                match convert_non_unicode_key(code, extended, false, &mut self.modifier_state) {
                    Some(key) => Ok(
                        KeyStroke {
                            virtual_key: key,
                            key_down: false,
                            flags: self.modifier_state.flags(),
                            unicode: None,
                        },
                    ),
                    None => Err(KeyboardError::UnknownCode { code, extended }),
                }
            },
            KeyboardEvent::UnicodePressed(unit) => Ok(
                KeyStroke { virtual_key: 0, key_down: true, flags: 0, unicode: Some(unit) },
            ),
            KeyboardEvent::UnicodeReleased(unit) => Ok(
                KeyStroke { virtual_key: 0, key_down: false, flags: 0, unicode: Some(unit) },
            ),
            KeyboardEvent::Synchronize(_) => Err(KeyboardError::Unhandled),
        }
    }

    /// Translates one mouse event into the action to take on the host.
    ///
    /// A `Move` is scaled by the screen size that the channel holds at this
    /// moment, whatever it is; every other event is translated without looking
    /// at the channel.  [`InputHandler::pointer_moved`] says what a `Move` yields
    /// under a given size.
    pub fn mouse(&mut self, event: MouseEvent) -> (action: MouseAction)
        ensures
            match event {
                MouseEvent::Move { x, y } => exists|size: ScreenSize|
                    (final(self)@, action) == #[trigger] move_step(old(self)@, x, y, size),
                _ => (final(self)@, action) == button_step(old(self)@, event),
            },
            final(self)@.modifier_state == old(self)@.modifier_state,
            !(event is Move) ==> final(self).watched() == old(self).watched(),
    {
        match event {
            MouseEvent::LeftPressed => {
                self.down_mouse_button = Some(MouseButton::Left);
                MouseAction::Post {
                    event_type: MouseEventType::LeftMouseDown,
                    at: self.last_mouse_point,
                    button: MouseButton::Left,
                }
            },
            MouseEvent::LeftReleased => {
                self.down_mouse_button = None;
                MouseAction::Post {
                    event_type: MouseEventType::LeftMouseUp,
                    at: self.last_mouse_point,
                    button: MouseButton::Left,
                }
            },
            MouseEvent::RightPressed => {
                self.down_mouse_button = Some(MouseButton::Right);
                MouseAction::Post {
                    event_type: MouseEventType::RightMouseDown,
                    at: self.last_mouse_point,
                    button: MouseButton::Right,
                }
            },
            MouseEvent::RightReleased => {
                self.down_mouse_button = None;
                MouseAction::Post {
                    event_type: MouseEventType::RightMouseUp,
                    at: self.last_mouse_point,
                    button: MouseButton::Right,
                }
            },
            MouseEvent::Move { x, y } => {
                let screen_size = latest_screen_size(&mut self.client_screen_size);
                self.pointer_moved(x, y, screen_size)
            },
            MouseEvent::VerticalScroll { value } => MouseAction::Scroll { value: value as i32 },
            _ => MouseAction::Ignore,
        }
    }

    /// Moves the pointer to the client-space point `(x, y)` under the screen
    /// size `screen_size`.
    ///
    /// The pointer's position becomes the scaled point.  With a button held the
    /// action is a drag event of that button; with none held it is a cursor move
    /// and never a button event.
    pub fn pointer_moved(&mut self, x: u16, y: u16, screen_size: ScreenSize) -> (action:
        MouseAction)
        ensures
            (final(self)@, action) == move_step(old(self)@, x, y, screen_size),
            old(self)@.down_mouse_button matches Some(button) ==> action == (MouseAction::Post {
                event_type: drag_type(button),
                at: screen_size.spec_scale(x, y),
                button,
            }),
            old(self)@.down_mouse_button is None ==> action == (MouseAction::MoveCursor {
                at: screen_size.spec_scale(x, y),
            }),
            final(self).watched() == old(self).watched(),
    {
        let at = screen_size.scale(x, y);
        self.last_mouse_point = at;
        match self.down_mouse_button {
            Some(MouseButton::Left) => MouseAction::Post {
                event_type: MouseEventType::LeftMouseDragged,
                at,
                button: MouseButton::Left,
            },
            Some(MouseButton::Right) => MouseAction::Post {
                event_type: MouseEventType::RightMouseDragged,
                at,
                button: MouseButton::Right,
            },
            None => MouseAction::MoveCursor { at },
        }
    }
}

/// Pressing a modifier key sets that key's flag and releasing it clears the
/// flag again; neither touches the flag of any other key.
pub proof fn modifier_key_toggles_only_itself(
    modifiers: Modifiers,
    code: u8,
    extended: bool,
    key: ModifierKey,
    other: ModifierKey,
)
    requires
        modifier_of(code, extended) == Some(key),
        other != key,
    ensures
        ({
            let pressed = keyboard_step(modifiers, KeyboardEvent::Pressed { code, extended }).0;
            let released = keyboard_step(pressed, KeyboardEvent::Released { code, extended }).0;
            &&& pressed.holds(key)
            &&& pressed.holds(other) == modifiers.holds(other)
            &&& !released.holds(key)
            &&& released.holds(other) == modifiers.holds(other)
            &&& released == modifiers.with(key, false)
        }),
{
}

/// A key that is no modifier key, a character and an untranslated event leave
/// every modifier flag as it was.
pub proof fn other_events_keep_modifiers(modifiers: Modifiers, event: KeyboardEvent)
    requires
        match event {
            KeyboardEvent::Pressed { code, extended } => modifier_of(code, extended) is None,
            KeyboardEvent::Released { code, extended } => modifier_of(code, extended) is None,
            _ => true,
        },
    ensures
        keyboard_step(modifiers, event).0 == modifiers,
{
}

/// A `Move` while a button is held yields a drag event of that button; a `Move`
/// with no button held yields a cursor move, which is no button event.
pub proof fn move_drags_only_with_held_button(
    state: InputState,
    x: u16,
    y: u16,
    size: ScreenSize,
)
    ensures
        ({
            let (after, action) = mouse_step(state, MouseEvent::Move { x, y }, size);
            &&& after.down_mouse_button == state.down_mouse_button
            &&& after.modifier_state == state.modifier_state
            &&& after.last_mouse_point == size.spec_scale(x, y)
            &&& state.down_mouse_button matches Some(button) ==> action == (MouseAction::Post {
                event_type: drag_type(button),
                at: size.spec_scale(x, y),
                button,
            })
            &&& state.down_mouse_button is None ==> action == (MouseAction::MoveCursor {
                at: size.spec_scale(x, y),
            })
        }),
{
}

} // verus!
