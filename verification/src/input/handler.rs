use vstd::prelude::*;

verus! {

// Menu command identifiers, sent back by the context menu.
pub const MENU_CHANGE_SKIN: u32 = 1001;

pub const MENU_FEED: u32 = 1002;

pub const MENU_PET: u32 = 1003;

pub const MENU_PLAY: u32 = 1004;

pub const MENU_SETTINGS: u32 = 1005;

pub const MENU_REMOVE_BG: u32 = 1007;

pub const MENU_QUIT: u32 = 1008;

// Numbers of the Win32 window messages that the pet's window handles.
pub const MSG_CREATE: u32 = 0x0001;

pub const MSG_DESTROY: u32 = 0x0002;

pub const MSG_PAINT: u32 = 0x000F;

pub const MSG_COMMAND: u32 = 0x0111;

pub const MSG_HOTKEY: u32 = 0x0312;

pub const MSG_MOUSEMOVE: u32 = 0x0200;

pub const MSG_LBUTTONDOWN: u32 = 0x0201;

pub const MSG_RBUTTONDOWN: u32 = 0x0204;

pub const MSG_MOUSELEAVE: u32 = 0x02A3;

/// A window message, with the values the window takes from its parameters.
#[derive(Debug, Clone, Copy, PartialEq, Eq, Structural)]
pub enum WindowEvent {
    /// The window is being created; it keeps its creation parameter.
    Create,
    LeftButtonDown,
    RightButtonDown { x: i32, y: i32 },
    MouseMove { x: i32, y: i32 },
    MouseLeave,
    /// A menu item was chosen.
    Command { menu_id: u32 },
    /// The quit hotkey was pressed.
    Hotkey,
    Paint,
    Destroy,
    /// Any other message, left to the default window procedure.
    Other,
}

/// The low 16 bits of the low 32 bits of a message parameter.
pub open spec fn low_word(v: int) -> int {
    ((v as u32) % 0x10000) as int
}

/// Bits 16 to 31 of a message parameter.
pub open spec fn high_word(v: int) -> int {
    ((v as u32) / 0x10000) as int
}

/// What the window does with a message: mouse messages carry the cursor's
/// client coordinates in the low and high word of `lparam`, a menu command
/// its identifier in the low word of `wparam`.
pub open spec fn spec_decode(msg: u32, wparam: usize, lparam: isize) -> WindowEvent {
    if msg == MSG_CREATE {
        WindowEvent::Create
    } else if msg == MSG_LBUTTONDOWN {
        WindowEvent::LeftButtonDown
    } else if msg == MSG_RBUTTONDOWN {
        WindowEvent::RightButtonDown {
            x: low_word(lparam as int) as i32,
            y: high_word(lparam as int) as i32,
        }
    } else if msg == MSG_MOUSEMOVE {
        WindowEvent::MouseMove {
            x: low_word(lparam as int) as i32,
            y: high_word(lparam as int) as i32,
        }
    } else if msg == MSG_MOUSELEAVE {
        WindowEvent::MouseLeave
    } else if msg == MSG_COMMAND {
        WindowEvent::Command { menu_id: low_word(wparam as int) as u32 }
    } else if msg == MSG_HOTKEY {
        WindowEvent::Hotkey
    } else if msg == MSG_PAINT {
        WindowEvent::Paint
    } else if msg == MSG_DESTROY {
        WindowEvent::Destroy
    } else {
        WindowEvent::Other
    }
}

fn split_words(v: u32) -> (r: (i32, i32))
    ensures
        r.0 == v % 0x10000,
        r.1 == v / 0x10000,
{
    let lo = v & 0xFFFF;
    let hi = v >> 16;
    assert(lo == v % 0x10000) by (bit_vector)
        requires
            lo == v & 0xFFFF,
    ;
    assert(hi == v / 0x10000) by (bit_vector)
        requires
            hi == v >> 16,
    ;
    (lo as i32, hi as i32)
}

/// Decodes a window message for the pet's window.
pub fn decode_message(msg: u32, wparam: usize, lparam: isize) -> (e: WindowEvent)
    ensures
        e == spec_decode(msg, wparam, lparam),
{
    if msg == MSG_CREATE {
        WindowEvent::Create
    } else if msg == MSG_LBUTTONDOWN {
        WindowEvent::LeftButtonDown
    } else if msg == MSG_RBUTTONDOWN {
        let (x, y) = split_words(lparam as u32);
        WindowEvent::RightButtonDown { x, y }
    } else if msg == MSG_MOUSEMOVE {
        let (x, y) = split_words(lparam as u32);
        WindowEvent::MouseMove { x, y }
    } else if msg == MSG_MOUSELEAVE {
        WindowEvent::MouseLeave
    } else if msg == MSG_COMMAND {
        let (id, _) = split_words(wparam as u32);
        WindowEvent::Command { menu_id: id as u32 }
    } else if msg == MSG_HOTKEY {
        WindowEvent::Hotkey
    } else if msg == MSG_PAINT {
        WindowEvent::Paint
    } else if msg == MSG_DESTROY {
        WindowEvent::Destroy
    } else {
        WindowEvent::Other
    }
}

/// Mouse coordinates taken from a message lie in 0 ..= 65535.
pub proof fn law_mouse_coordinates_in_word_range(msg: u32, wparam: usize, lparam: isize)
    ensures
        spec_decode(msg, wparam, lparam) matches WindowEvent::MouseMove { x, y } ==> 0 <= x
            < 0x10000 && 0 <= y < 0x10000,
        spec_decode(msg, wparam, lparam) matches WindowEvent::RightButtonDown { x, y } ==> 0 <= x
            < 0x10000 && 0 <= y < 0x10000,
        spec_decode(msg, wparam, lparam) matches WindowEvent::Command { menu_id } ==> menu_id
            < 0x10000,
{
}

} // verus!
