//! User-triggerable actions (focus, move, workspace switch) and their
//! textual form, as used in keybinding files and on the command line.

use vstd::prelude::*;
use crate::text::{digits_value, chars_eq, chars_has_prefix, has_prefix, parse_unsigned, parse_unsigned_chars, str_chars};

verus! {

broadcast use vstd::string::group_string_axioms;

/// Number of workspaces per monitor.
pub const MAX_WORKSPACES: u8 = 8;

/// Spatial direction for focus and move actions.
#[derive(Debug, Clone, Copy, PartialEq, Eq, Structural)]
pub enum Direction {
    Left,
    Right,
    Up,
    Down,
}

/// An action that can be triggered by a hotkey or CLI command.
///
/// Focus and Move each take a spatial [`Direction`], keeping the
/// direction logic in one place instead of duplicating it across
/// separate Next/Prev variants.
#[derive(Debug, Clone, Copy, PartialEq, Eq, Structural)]
pub enum Action {
    /// Move focus in the given direction.
    Focus(Direction),
    /// Move (swap) the focused window in the given direction.
    Move(Direction),
    /// Switch to the given workspace (1-based).
    GoToWorkspace(u8),
    /// Send the focused window to the given workspace (1-based).
    SendToWorkspace(u8),
    /// Re-apply the current layout to all managed windows.
    Retile,
    /// Toggle monocle mode (focused window fills the monitor).
    ToggleMonocle,
    /// Cycle the layout (BSP, vertical stack, three columns).
    CycleLayout,
    /// Close the currently focused window.
    CloseFocused,
    /// Minimize the currently focused window.
    MinimizeFocused,
}

/// The character of a decimal digit.
pub open spec fn digit_char(d: nat) -> char {
    ((d + 48) as int) as char
}

/// Decimal representation of a natural number, without leading zeros.
pub open spec fn decimal(n: nat) -> Seq<char>
    decreases n,
{
    if n < 10 {
        seq![digit_char(n)]
    } else {
        decimal(n / 10).push(digit_char(n % 10))
    }
}

pub open spec fn parse_direction(s: Seq<char>) -> Option<Direction> {
    if s == "left"@ {
        Some(Direction::Left)
    } else if s == "right"@ {
        Some(Direction::Right)
    } else if s == "up"@ {
        Some(Direction::Up)
    } else if s == "down"@ {
        Some(Direction::Down)
    } else {
        None
    }
}

/// The workspace number written in `s`, when it is one of `1..=MAX_WORKSPACES`.
pub open spec fn parse_workspace(s: Seq<char>) -> Option<u8> {
    match parse_unsigned(s, 255) {
        Some(n) => if 1 <= n <= MAX_WORKSPACES {
            Some(n as u8)
        } else {
            None
        },
        None => None,
    }
}

pub open spec fn direction_arg(s: Seq<char>, prefix: Seq<char>) -> Result<Direction, Seq<char>> {
    let rest = s.skip(prefix.len() as int);
    match parse_direction(rest) {
        Some(d) => Ok(d),
        None => Err("unknown direction: "@ + rest),
    }
}

pub open spec fn workspace_arg(s: Seq<char>, prefix: Seq<char>) -> Result<u8, Seq<char>> {
    let rest = s.skip(prefix.len() as int);
    match parse_workspace(rest) {
        Some(n) => Ok(n),
        None => Err("invalid workspace number: "@ + rest),
    }
}

/// What parsing `s` as an action gives: the action, or the error message.
pub open spec fn parse_action(s: Seq<char>) -> Result<Action, Seq<char>> {
    if has_prefix(s, "focus-"@) {
        match direction_arg(s, "focus-"@) {
            Ok(d) => Ok(Action::Focus(d)),
            Err(e) => Err(e),
        }
    } else if has_prefix(s, "move-"@) {
        match direction_arg(s, "move-"@) {
            Ok(d) => Ok(Action::Move(d)),
            Err(e) => Err(e),
        }
    } else if has_prefix(s, "goto-workspace-"@) {
        match workspace_arg(s, "goto-workspace-"@) {
            Ok(n) => Ok(Action::GoToWorkspace(n)),
            Err(e) => Err(e),
        }
    } else if has_prefix(s, "send-to-workspace-"@) {
        match workspace_arg(s, "send-to-workspace-"@) {
            Ok(n) => Ok(Action::SendToWorkspace(n)),
            Err(e) => Err(e),
        }
    } else if s == "retile"@ {
        Ok(Action::Retile)
    } else if s == "toggle-monocle"@ {
        Ok(Action::ToggleMonocle)
    } else if s == "cycle-layout"@ {
        Ok(Action::CycleLayout)
    } else if s == "close-focused"@ {
        Ok(Action::CloseFocused)
    } else if s == "minimize-focused"@ {
        Ok(Action::MinimizeFocused)
    } else {
        Err("unknown action: "@ + s)
    }
}

impl Direction {
    /// The lowercase name of the direction.
    pub open spec fn spec_name(self) -> Seq<char> {
        match self {
            Direction::Left => "left"@,
            Direction::Right => "right"@,
            Direction::Up => "up"@,
            Direction::Down => "down"@,
        }
    }

    /// The lowercase name of the direction.
    pub fn as_str(&self) -> (s: &'static str)
        ensures
            s@ == self.spec_name(),
    {
        match self {
            Direction::Left => "left",
            Direction::Right => "right",
            Direction::Up => "up",
            Direction::Down => "down",
        }
    }

    /// The textual form of the direction (`left`, `right`, `up`, `down`).
    pub fn to_string(&self) -> (s: String)
        ensures
            s@ == self.spec_name(),
    {
        self.as_str().to_string()
    }

    /// Parses a direction name; anything else is an error naming the input.
    pub fn parse(s: &str) -> (r: Result<Direction, String>)
        ensures
            match r {
                Ok(d) => parse_direction(s@) == Some(d),
                Err(e) => parse_direction(s@) is None && e@ == "unknown direction: "@ + s@,
            },
    {
        let v = str_chars(s);
        if chars_eq(&v, &str_chars("left")) {
            Ok(Direction::Left)
        } else if chars_eq(&v, &str_chars("right")) {
            Ok(Direction::Right)
        } else if chars_eq(&v, &str_chars("up")) {
            Ok(Direction::Up)
        } else if chars_eq(&v, &str_chars("down")) {
            Ok(Direction::Down)
        } else {
            let mut e = "unknown direction: ".to_string();
            e.append(s);
            Err(e)
        }
    }
}

/// The text of a digit `0..=9`.
fn digit_str(d: u8) -> (s: &'static str)
    requires
        d < 10,
    ensures
        s@ == seq![digit_char(d as nat)],
{
    proof {
        reveal_strlit("0");
        reveal_strlit("1");
        reveal_strlit("2");
        reveal_strlit("3");
        reveal_strlit("4");
        reveal_strlit("5");
        reveal_strlit("6");
        reveal_strlit("7");
        reveal_strlit("8");
        reveal_strlit("9");
    }
    match d {
        0 => "0",
        1 => "1",
        2 => "2",
        3 => "3",
        4 => "4",
        5 => "5",
        6 => "6",
        7 => "7",
        8 => "8",
        _ => "9",
    }
}

/// Decimal text of a byte, as `Display` writes it.
pub fn decimal_u8(n: u8) -> (s: String)
    ensures
        s@ == decimal(n as nat),
{
    reveal_with_fuel(decimal, 3);
    if n < 10 {
        digit_str(n).to_string()
    } else if n < 100 {
        let mut s = digit_str(n / 10).to_string();
        s.append(digit_str(n % 10));
        assert(s@ =~= decimal(n as nat));
        s
    } else {
        let mut s = digit_str(n / 100).to_string();
        s.append(digit_str((n / 10) % 10));
        s.append(digit_str(n % 10));
        assert((n / 10) / 10 == n / 100);
        assert(s@ =~= decimal(n as nat));
        s
    }
}

impl Action {
    /// The workspace numbers an action names are in `1..=MAX_WORKSPACES`.
    pub open spec fn valid(self) -> bool {
        match self {
            Action::GoToWorkspace(n) => 1 <= n <= MAX_WORKSPACES,
            Action::SendToWorkspace(n) => 1 <= n <= MAX_WORKSPACES,
            _ => true,
        }
    }

    /// The textual form of the action, as used in keybinding files.
    pub open spec fn spec_to_string(self) -> Seq<char> {
        match self {
            Action::Focus(d) => "focus-"@ + d.spec_name(),
            Action::Move(d) => "move-"@ + d.spec_name(),
            Action::GoToWorkspace(n) => "goto-workspace-"@ + decimal(n as nat),
            Action::SendToWorkspace(n) => "send-to-workspace-"@ + decimal(n as nat),
            Action::Retile => "retile"@,
            Action::ToggleMonocle => "toggle-monocle"@,
            Action::CycleLayout => "cycle-layout"@,
            Action::CloseFocused => "close-focused"@,
            Action::MinimizeFocused => "minimize-focused"@,
        }
    }

    /// The textual form of the action (e.g. `focus-left`, `goto-workspace-3`).
    pub fn to_string(&self) -> (s: String)
        ensures
            s@ == self.spec_to_string(),
    {
        match self {
            Action::Focus(d) => {
                let mut s = "focus-".to_string();
                s.append(d.as_str());
                s
            },
            Action::Move(d) => {
                let mut s = "move-".to_string();
                s.append(d.as_str());
                s
            },
            Action::GoToWorkspace(n) => {
                let mut s = "goto-workspace-".to_string();
                let num = decimal_u8(*n);
                s.append(num.as_str());
                s
            },
            Action::SendToWorkspace(n) => {
                let mut s = "send-to-workspace-".to_string();
                let num = decimal_u8(*n);
                s.append(num.as_str());
                s
            },
            Action::Retile => "retile".to_string(),
            Action::ToggleMonocle => "toggle-monocle".to_string(),
            Action::CycleLayout => "cycle-layout".to_string(),
            Action::CloseFocused => "close-focused".to_string(),
            Action::MinimizeFocused => "minimize-focused".to_string(),
        }
    }

    /// Parses the textual form of an action.
    ///
    /// `focus-`/`move-` take a direction, `goto-workspace-`/`send-to-workspace-`
    /// take a workspace number; any other text must name an action exactly.
    pub fn parse(s: &str) -> (r: Result<Action, String>)
        ensures
            match r {
                Ok(a) => parse_action(s@) == Ok::<Action, Seq<char>>(a),
                Err(e) => parse_action(s@) == Err::<Action, Seq<char>>(e@),
            },
    {
        let v = str_chars(s);
        let n = s.unicode_len();
        proof {
            reveal_strlit("focus-");
            reveal_strlit("move-");
            reveal_strlit("goto-workspace-");
            reveal_strlit("send-to-workspace-");
        }
        if chars_has_prefix(&v, &str_chars("focus-")) {
            let rest = s.substring_char(6, n);
            assert(rest@ =~= s@.skip(6));
            match Direction::parse(rest) {
                Ok(d) => Ok(Action::Focus(d)),
                Err(e) => Err(e),
            }
        } else if chars_has_prefix(&v, &str_chars("move-")) {
            let rest = s.substring_char(5, n);
            assert(rest@ =~= s@.skip(5));
            match Direction::parse(rest) {
                Ok(d) => Ok(Action::Move(d)),
                Err(e) => Err(e),
            }
        } else if chars_has_prefix(&v, &str_chars("goto-workspace-")) {
            let rest = s.substring_char(15, n);
            assert(rest@ =~= s@.skip(15));
            match Self::workspace_number(rest) {
                Ok(k) => Ok(Action::GoToWorkspace(k)),
                Err(e) => Err(e),
            }
        } else if chars_has_prefix(&v, &str_chars("send-to-workspace-")) {
            let rest = s.substring_char(18, n);
            assert(rest@ =~= s@.skip(18));
            match Self::workspace_number(rest) {
                Ok(k) => Ok(Action::SendToWorkspace(k)),
                Err(e) => Err(e),
            }
        } else if chars_eq(&v, &str_chars("retile")) {
            Ok(Action::Retile)
        } else if chars_eq(&v, &str_chars("toggle-monocle")) {
            Ok(Action::ToggleMonocle)
        } else if chars_eq(&v, &str_chars("cycle-layout")) {
            Ok(Action::CycleLayout)
        } else if chars_eq(&v, &str_chars("close-focused")) {
            Ok(Action::CloseFocused)
        } else if chars_eq(&v, &str_chars("minimize-focused")) {
            Ok(Action::MinimizeFocused)
        } else {
            let mut e = "unknown action: ".to_string();
            e.append(s);
            Err(e)
        }
    }

    /// Parses a workspace number `1..=MAX_WORKSPACES`.
    fn workspace_number(s: &str) -> (r: Result<u8, String>)
        ensures
            match r {
                Ok(n) => parse_workspace(s@) == Some(n),
                Err(e) => parse_workspace(s@) is None && e@ == "invalid workspace number: "@ + s@,
            },
    {
        match parse_workspace_number(s) {
            Some(n) => Ok(n),
            None => {
                let mut e = "invalid workspace number: ".to_string();
                e.append(s);
                Err(e)
            },
        }
    }
}

/// Parses a workspace number: a decimal `u8` in `1..=MAX_WORKSPACES`.
pub fn parse_workspace_number(s: &str) -> (r: Option<u8>)
    ensures
        r == parse_workspace(s@),
{
    let v = str_chars(s);
    match parse_unsigned_chars(&v, 255) {
        Some(n) => {
            if 1 <= n && n <= MAX_WORKSPACES as u64 {
                Some(n as u8)
            } else {
                None
            }
        },
        None => None,
    }
}

/// Parsing the name of a direction gives that direction back.
pub proof fn lemma_direction_roundtrip(d: Direction)
    ensures
        parse_direction(d.spec_name()) == Some(d),
{
    reveal_strlit("left");
    reveal_strlit("right");
    reveal_strlit("up");
    reveal_strlit("down");
    match d {
        Direction::Left => {},
        Direction::Right => {
            assert("right"@.len() != "left"@.len());
        },
        Direction::Up => {
            assert("up"@.len() != "left"@.len());
            assert("up"@.len() != "right"@.len());
        },
        Direction::Down => {
            assert("down"@[0] != "left"@[0]);
            assert("down"@.len() != "right"@.len());
            assert("down"@.len() != "up"@.len());
        },
    }
}

/// Parsing the text of a valid action gives the same action back.
pub proof fn lemma_action_roundtrip(a: Action)
    requires
        a.valid(),
    ensures
        parse_action(a.spec_to_string()) == Ok::<Action, Seq<char>>(a),
{
    reveal_strlit("focus-");
    reveal_strlit("move-");
    reveal_strlit("goto-workspace-");
    reveal_strlit("send-to-workspace-");
    reveal_strlit("retile");
    reveal_strlit("toggle-monocle");
    reveal_strlit("cycle-layout");
    reveal_strlit("close-focused");
    reveal_strlit("minimize-focused");
    reveal_strlit("left");
    reveal_strlit("right");
    reveal_strlit("up");
    reveal_strlit("down");
    let t = a.spec_to_string();
    match a {
        Action::Focus(d) => {
            assert(t.take(6) =~= "focus-"@);
            assert(t.skip(6) =~= d.spec_name());
            lemma_direction_roundtrip(d);
        },
        Action::Move(d) => {
            assert(t.take(6)[0] != "focus-"@[0]);
            assert(t.take(5) =~= "move-"@);
            assert(t.skip(5) =~= d.spec_name());
            lemma_direction_roundtrip(d);
        },
        Action::GoToWorkspace(n) => {
            assert(t.take(6)[0] != "focus-"@[0]);
            assert(t.take(5)[0] != "move-"@[0]);
            assert(t.take(15) =~= "goto-workspace-"@);
            assert(t.skip(15) =~= decimal(n as nat));
            assert(decimal(n as nat) == seq![digit_char(n as nat)]);
            assert(digits_value(seq![digit_char(n as nat)].drop_last()) == 0);
            assert(seq![digit_char(n as nat)].drop_last() =~= Seq::<char>::empty());
        },
        Action::SendToWorkspace(n) => {
            assert(t.take(6)[0] != "focus-"@[0]);
            assert(t.take(5)[0] != "move-"@[0]);
            assert(t.take(15)[0] != "goto-workspace-"@[0]);
            assert(t.take(18) =~= "send-to-workspace-"@);
            assert(t.skip(18) =~= decimal(n as nat));
            assert(decimal(n as nat) == seq![digit_char(n as nat)]);
            assert(digits_value(seq![digit_char(n as nat)].drop_last()) == 0);
            assert(seq![digit_char(n as nat)].drop_last() =~= Seq::<char>::empty());
        },
        Action::CycleLayout => {
            assert(t.take(6)[0] != "focus-"@[0]);
            assert(t.take(5)[0] != "move-"@[0]);
            assert(t.len() < 15);
            assert(t != "retile"@ && t != "toggle-monocle"@ && t != "close-focused"@) by {
                assert(t[0] != "retile"@[0] && t[0] != "toggle-monocle"@[0] && t[1] != "close-focused"@[1]);
            }
        },
        Action::MinimizeFocused => {
            assert(t.take(6)[0] != "focus-"@[0]);
            assert(t.take(5)[1] != "move-"@[1]);
            assert(t.take(15)[0] != "goto-workspace-"@[0]);
            assert(t.len() < 18);
            assert(t != "retile"@ && t != "toggle-monocle"@ && t != "close-focused"@ && t != "cycle-layout"@) by {
                assert(t[0] != "retile"@[0] && t[0] != "toggle-monocle"@[0] && t[0] != "close-focused"@[0]
                    && t[0] != "cycle-layout"@[0]);
            }
        },
        _ => {
            assert(t.len() < 6 || t.take(6)[0] != "focus-"@[0]);
            assert(t.len() < 5 || t.take(5)[0] != "move-"@[0]);
            assert(t.len() < 15 || t.take(15)[0] != "goto-workspace-"@[0]);
            assert(t.len() < 18 || t.take(18)[0] != "send-to-workspace-"@[0]);
            assert(a == Action::Retile || t != "retile"@) by {
                if a != Action::Retile {
                    assert(t.len() != "retile"@.len() || t[0] != "retile"@[0]);
                }
            }
            assert(a == Action::ToggleMonocle || t != "toggle-monocle"@) by {
                if a != Action::ToggleMonocle {
                    assert(t.len() != "toggle-monocle"@.len() || t[0] != "toggle-monocle"@[0]);
                }
            }
            assert(t != "cycle-layout"@) by {
                assert(t.len() != "cycle-layout"@.len() || t[0] != "cycle-layout"@[0] || t[1] != "cycle-layout"@[1]);
            }
        },
    }
}

impl core::str::FromStr for Action {
    type Err = String;

    /// Parses the textual form of an action, as [`Action::parse`] does.
    fn from_str(s: &str) -> (r: Result<Self, Self::Err>)
        ensures
            match r {
                Ok(a) => parse_action(s@) == Ok::<Action, Seq<char>>(a),
                Err(e) => parse_action(s@) == Err::<Action, Seq<char>>(e@),
            },
    {
        Action::parse(s)
    }
}

impl core::str::FromStr for Direction {
    type Err = String;

    /// Parses a direction name, as [`Direction::parse`] does.
    fn from_str(s: &str) -> (r: Result<Self, Self::Err>)
        ensures
            match r {
                Ok(d) => parse_direction(s@) == Some(d),
                Err(e) => parse_direction(s@) is None && e@ == "unknown direction: "@ + s@,
            },
    {
        Direction::parse(s)
    }
}

} // verus!
