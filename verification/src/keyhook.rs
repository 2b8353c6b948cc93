use vstd::prelude::*;

verus! {

/// Message numbers under which a low-level keyboard hook reports keys.
pub const WM_KEYDOWN: u32 = 0x0100;
pub const WM_KEYUP: u32 = 0x0101;
pub const WM_SYSKEYDOWN: u32 = 0x0104;
pub const WM_SYSKEYUP: u32 = 0x0105;

/// Whether a key went down or came up.
#[derive(Clone, Copy, Debug, PartialEq, Eq, Structural)]
pub enum Direction {
    Up,
    Down,
}

/// What the keyboard hook knows of a key event.
#[derive(Clone, Copy, Debug, PartialEq, Eq, Structural)]
pub struct KeyData {
    /// The virtual-key code.
    pub vk_code: u32,
    /// The hardware scan code.
    pub scan_code: u32,
    /// Extended-key, injected, context and transition flags.
    pub flags: u32,
    /// The time stamp of the event.
    pub time: u32,
    /// Additional information that came with the event.
    pub extra_info: usize,
}

/// What the hook thread sends for every key event it sees.
#[derive(Clone, Copy, Debug, PartialEq, Eq, Structural)]
pub enum HookMessage {
    Key { direction: Direction, sys: bool, data: KeyData },
}

/// The direction that a hook event's message number stands for: down for
/// the two key-down messages, up for everything else.
pub open spec fn direction_of(message: u32) -> Direction {
    if message == WM_KEYDOWN || message == WM_SYSKEYDOWN {
        Direction::Down
    } else {
        Direction::Up
    }
}

/// Whether a hook event's message number is one of the two system-key
/// messages.
pub open spec fn is_system_key(message: u32) -> bool {
    message == WM_SYSKEYDOWN || message == WM_SYSKEYUP
}

/// The message to send for a hook event: the direction and the system-key
/// mark as its message number tells them, and the key data unchanged.
pub fn classify(message: u32, data: KeyData) -> (sent: HookMessage)
    ensures
        sent == (HookMessage::Key {
            direction: direction_of(message),
            sys: is_system_key(message),
            data,
        }),
{
    if message == WM_KEYDOWN {
        HookMessage::Key { direction: Direction::Down, sys: false, data }
    } else if message == WM_SYSKEYDOWN {
        HookMessage::Key { direction: Direction::Down, sys: true, data }
    } else if message == WM_SYSKEYUP {
        HookMessage::Key { direction: Direction::Up, sys: true, data }
    } else {
        HookMessage::Key { direction: Direction::Up, sys: false, data }
    }
}

} // verus!
