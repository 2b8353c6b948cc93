use vstd::prelude::*;
use crate::geometry::Extent;

verus! {

/// Window message numbers that the host reacts to.
pub const WM_DESTROY: u32 = 0x0002;
pub const WM_SIZE: u32 = 0x0005;
pub const WM_ACTIVATE: u32 = 0x0006;
pub const WM_PAINT: u32 = 0x000F;
pub const WM_QUIT: u32 = 0x0012;
pub const WM_DISPLAYCHANGE: u32 = 0x007E;
pub const WM_NCCREATE: u32 = 0x0081;
/// The application-defined message under which the host asks to be told
/// that an occlusion has cleared.
pub const WM_USER: u32 = 0x0400;

/// The size message's first parameter when the window was minimized.
pub const SIZE_MINIMIZED: usize = 1;

/// A window message, reduced to what the host decides on.
#[derive(Clone, Copy, Debug, PartialEq, Eq)]
pub enum Message {
    /// The window asks to be painted.
    Paint,
    /// The client area changed size, or the window was minimized.
    Size { minimized: bool, extent: Extent },
    /// The display's resolution or depth changed.
    DisplayChange,
    /// The watched occlusion may have cleared.
    OcclusionCleared,
    /// The window was activated.
    Activate,
    /// The window is being destroyed.
    Destroy,
    /// Any message that the host leaves to default processing.
    Other,
}

/// What the message loop does with a message that it took off the queue.
#[derive(Clone, Copy, Debug, PartialEq, Eq, Structural)]
pub enum Pump {
    /// The termination signal: leave the loop.
    Quit,
    /// Hand the message to the window procedure.
    Dispatch,
}

/// Where the window procedure sends a message.
#[derive(Clone, Copy, Debug, PartialEq, Eq, Structural)]
pub enum Route {
    /// The window is being created: associate the host with it.
    Attach,
    /// Hand the message to the host that is associated with the window.
    Deliver,
    /// No host is associated with the window: default processing.
    Default,
}

/// The low sixteen bits of a message parameter.
pub open spec fn low_word(lparam: isize) -> int {
    (lparam as int) % 0x1_0000
}

/// Bits sixteen to thirty-one of a message parameter.
pub open spec fn high_word(lparam: isize) -> int {
    ((lparam as int) / 0x1_0000) % 0x1_0000
}

/// The client extent that a size message carries: the width in the low
/// word of its second parameter, the height in the high word.
pub open spec fn packed_extent(lparam: isize) -> Extent {
    Extent { width: low_word(lparam) as u32, height: high_word(lparam) as u32 }
}

/// What a raw window message means to the host.
pub open spec fn decoded(message: u32, wparam: usize, lparam: isize) -> Message {
    if message == WM_PAINT {
        Message::Paint
    } else if message == WM_SIZE {
        Message::Size { minimized: wparam == SIZE_MINIMIZED, extent: packed_extent(lparam) }
    } else if message == WM_DISPLAYCHANGE {
        Message::DisplayChange
    } else if message == WM_USER {
        Message::OcclusionCleared
    } else if message == WM_ACTIVATE {
        Message::Activate
    } else if message == WM_DESTROY {
        Message::Destroy
    } else {
        Message::Other
    }
}

/// Sixteen bits of `value`, starting at bit `16 * index`, for `index` 0 or 1.
fn word(value: isize, index: u8) -> (bits: u32)
    requires
        index <= 1,
    ensures
        index == 0 ==> bits == low_word(value),
        index == 1 ==> bits == high_word(value),
        bits < 0x1_0000,
{
    // A negative parameter is read as its two's complement: with
    // `value == -(n + 1)` every bit of it is the inverse of that bit of `n`.
    let negative = value < 0;
    let magnitude: u64 = if negative {
        (-(value + 1)) as u64
    } else {
        value as u64
    };
    let shifted: u64 = if index == 0 {
        magnitude
    } else {
        magnitude / 0x1_0000
    };
    let part: u64 = shifted % 0x1_0000;
    let bits: u64 = if negative {
        0xFFFF - part
    } else {
        part
    };
    proof {
        let v = value as int;
        let n = magnitude as int;
        if negative {
            assert(v == -n - 1);
            assert(v % 0x1_0000 == 0xFFFF - n % 0x1_0000) by (nonlinear_arith)
                requires
                    v == -n - 1,
                    n >= 0,
            ;
            assert(v / 0x1_0000 == -(n / 0x1_0000) - 1) by (nonlinear_arith)
                requires
                    v == -n - 1,
                    n >= 0,
            ;
            let m = n / 0x1_0000;
            let w = v / 0x1_0000;
            assert(w % 0x1_0000 == 0xFFFF - m % 0x1_0000) by (nonlinear_arith)
                requires
                    w == -m - 1,
                    m >= 0,
            ;
        }
    }
    bits as u32
}

impl Message {
    /// Reads a raw window message: its number and its two parameters.
    pub fn decode(message: u32, wparam: usize, lparam: isize) -> (decoded_message: Message)
        ensures
            decoded_message == decoded(message, wparam, lparam),
    {
        if message == WM_PAINT {
            Message::Paint
        } else if message == WM_SIZE {
            let width = word(lparam, 0);
            let height = word(lparam, 1);
            Message::Size { minimized: wparam == SIZE_MINIMIZED, extent: Extent { width, height } }
        } else if message == WM_DISPLAYCHANGE {
            Message::DisplayChange
        } else if message == WM_USER {
            Message::OcclusionCleared
        } else if message == WM_ACTIVATE {
            Message::Activate
        } else if message == WM_DESTROY {
            Message::Destroy
        } else {
            Message::Other
        }
    }
}

/// The loop's decision on a message taken off the queue: the termination
/// signal ends the loop, everything else goes to the window procedure.
pub fn pump(message: u32) -> (decision: Pump)
    ensures
        decision == (if message == WM_QUIT { Pump::Quit } else { Pump::Dispatch }),
{
    if message == WM_QUIT {
        Pump::Quit
    } else {
        Pump::Dispatch
    }
}

/// The window procedure's decision: the creation message associates the
/// host with the window; later messages go to the associated host, and to
/// default processing while there is none.
pub fn route(message: u32, attached: bool) -> (decision: Route)
    ensures
        decision == (if message == WM_NCCREATE {
            Route::Attach
        } else if attached {
            Route::Deliver
        } else {
            Route::Default
        }),
{
    if message == WM_NCCREATE {
        Route::Attach
    } else if attached {
        Route::Deliver
    } else {
        Route::Default
    }
}

} // verus!
