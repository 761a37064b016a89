//! Window lifecycle events from the platform.

use vstd::prelude::*;

verus! {

broadcast use vstd::string::group_string_axioms;

/// A platform-agnostic window event.
///
/// These represent meaningful state changes that the tiling manager
/// needs to react to. Platform crates translate raw OS events into
/// these variants.
#[derive(Debug, Clone, Copy, PartialEq, Eq, Structural)]
pub enum WindowEvent {
    /// A new window was created and made visible.
    Created { hwnd: usize },
    /// A window was destroyed or closed.
    Destroyed { hwnd: usize },
    /// A window received keyboard focus.
    Focused { hwnd: usize },
    /// A window finished being moved or resized.
    Moved { hwnd: usize },
    /// A window was minimized.
    Minimized { hwnd: usize },
    /// A window was restored from minimized state.
    Restored { hwnd: usize },
    /// A window's title changed.
    TitleChanged { hwnd: usize },
    /// The display configuration changed (monitor connect/disconnect).
    DisplayChanged,
}

/// The upper-case hexadecimal digit of `d < 16`.
pub open spec fn hex_digit(d: nat) -> char {
    if d < 10 {
        ((d + 48) as int) as char
    } else {
        ((d + 55) as int) as char
    }
}

/// Upper-case hexadecimal representation of `n`, without leading zeros.
pub open spec fn hex(n: nat) -> Seq<char>
    decreases n,
{
    if n < 16 {
        seq![hex_digit(n)]
    } else {
        hex(n / 16).push(hex_digit(n % 16))
    }
}

impl WindowEvent {
    pub open spec fn spec_hwnd(self) -> usize {
        match self {
            WindowEvent::Created { hwnd } => hwnd,
            WindowEvent::Destroyed { hwnd } => hwnd,
            WindowEvent::Focused { hwnd } => hwnd,
            WindowEvent::Moved { hwnd } => hwnd,
            WindowEvent::Minimized { hwnd } => hwnd,
            WindowEvent::Restored { hwnd } => hwnd,
            WindowEvent::TitleChanged { hwnd } => hwnd,
            WindowEvent::DisplayChanged => 0,
        }
    }

    pub open spec fn spec_name(self) -> Seq<char> {
        match self {
            WindowEvent::Created { .. } => "Created"@,
            WindowEvent::Destroyed { .. } => "Destroyed"@,
            WindowEvent::Focused { .. } => "Focused"@,
            WindowEvent::Moved { .. } => "Moved"@,
            WindowEvent::Minimized { .. } => "Minimized"@,
            WindowEvent::Restored { .. } => "Restored"@,
            WindowEvent::TitleChanged { .. } => "TitleChanged"@,
            WindowEvent::DisplayChanged => "DisplayChanged"@,
        }
    }

    /// Returns the window handle associated with this event
    /// (0 for display changes).
    pub fn hwnd(&self) -> (h: usize)
        ensures
            h == self.spec_hwnd(),
    {
        match self {
            WindowEvent::Created { hwnd } => *hwnd,
            WindowEvent::Destroyed { hwnd } => *hwnd,
            WindowEvent::Focused { hwnd } => *hwnd,
            WindowEvent::Moved { hwnd } => *hwnd,
            WindowEvent::Minimized { hwnd } => *hwnd,
            WindowEvent::Restored { hwnd } => *hwnd,
            WindowEvent::TitleChanged { hwnd } => *hwnd,
            WindowEvent::DisplayChanged => 0,
        }
    }

    /// Returns the event name without the handle.
    pub fn name(&self) -> (s: &'static str)
        ensures
            s@ == self.spec_name(),
    {
        match self {
            WindowEvent::Created { .. } => "Created",
            WindowEvent::Destroyed { .. } => "Destroyed",
            WindowEvent::Focused { .. } => "Focused",
            WindowEvent::Moved { .. } => "Moved",
            WindowEvent::Minimized { .. } => "Minimized",
            WindowEvent::Restored { .. } => "Restored",
            WindowEvent::TitleChanged { .. } => "TitleChanged",
            WindowEvent::DisplayChanged => "DisplayChanged",
        }
    }

    /// The event as displayed in logs: its name, a space, and the handle
    /// in upper-case hexadecimal after `0x`.
    pub fn to_string(&self) -> (s: String)
        ensures
            s@ == self.spec_name() + " 0x"@ + hex(self.spec_hwnd() as nat),
    {
        let mut s = self.name().to_string();
        s.append(" 0x");
        let h = hex_string(self.hwnd());
        s.append(h.as_str());
        s
    }
}

fn hex_digit_str(d: usize) -> (s: &'static str)
    requires
        d < 16,
    ensures
        s@ == seq![hex_digit(d as nat)],
{
    proof {
        reveal_strlit("0");
        reveal_strlit("1");
        reveal_strlit("2");
        reveal_strlit("3");
        reveal_strlit("4");
        reveal_strlit("5");
        reveal_strlit("6");
        reveal_strlit("7");
        reveal_strlit("8");
        reveal_strlit("9");
        reveal_strlit("A");
        reveal_strlit("B");
        reveal_strlit("C");
        reveal_strlit("D");
        reveal_strlit("E");
        reveal_strlit("F");
    }
    match d {
        0 => "0",
        1 => "1",
        2 => "2",
        3 => "3",
        4 => "4",
        5 => "5",
        6 => "6",
        7 => "7",
        8 => "8",
        9 => "9",
        10 => "A",
        11 => "B",
        12 => "C",
        13 => "D",
        14 => "E",
        _ => "F",
    }
}

/// Upper-case hexadecimal text of `n`, as the `{:X}` format writes it.
pub fn hex_string(n: usize) -> (s: String)
    ensures
        s@ == hex(n as nat),
    decreases n,
{
    if n < 16 {
        hex_digit_str(n).to_string()
    } else {
        let mut s = hex_string(n / 16);
        s.append(hex_digit_str(n % 16));
        s
    }
}

} // verus!
