//! Keybindings: key combinations mapped to actions.

use vstd::prelude::*;
use crate::action::{decimal, decimal_u8, Action, Direction};

verus! {

broadcast use vstd::string::group_string_axioms;

/// Keyboard modifier keys.
#[derive(Debug, Clone, Copy, PartialEq, Eq, Structural)]
pub enum Modifier {
    Alt,
    Shift,
    Ctrl,
    Win,
}

/// A user-configured keybinding that maps a key combination to an action.
#[derive(Debug, Clone)]
pub struct Keybinding {
    /// The action to trigger.
    pub action: Action,
    /// Key name (e.g. "J", "Enter", "Space", "F1").
    pub key: String,
    /// Modifier keys (e.g. ["alt", "shift"]).
    pub modifiers: Vec<Modifier>,
}

/// `kb` binds `action` to `key` with the given modifiers.
pub open spec fn binds(kb: Keybinding, action: Action, key: Seq<char>, modifiers: Seq<Modifier>) -> bool {
    kb.action == action && kb.key@ == key && kb.modifiers@ == modifiers
}

/// The default bindings as (action, key, modifiers), using vim-style
/// motions:
///
/// Focus: Alt + H/J/K/L; Move: Alt + Shift + H/J/K/L; Retile:
/// Alt + Shift + R; Monocle: Alt + T; Cycle layout: Alt + N; Close: Alt + Q;
/// Minimize: Alt + M;
/// then for each
/// workspace n in 1..=8, Alt + n to switch and Alt + Shift + n to send.
pub open spec fn default_binding_table() -> Seq<(Action, Seq<char>, Seq<Modifier>)> {
    let alt = seq![Modifier::Alt];
    let alt_shift = seq![Modifier::Alt, Modifier::Shift];
    seq![
        (Action::Focus(Direction::Down), "J"@, alt),
        (Action::Focus(Direction::Up), "K"@, alt),
        (Action::Focus(Direction::Right), "L"@, alt),
        (Action::Focus(Direction::Left), "H"@, alt),
        (Action::Move(Direction::Down), "J"@, alt_shift),
        (Action::Move(Direction::Up), "K"@, alt_shift),
        (Action::Move(Direction::Right), "L"@, alt_shift),
        (Action::Move(Direction::Left), "H"@, alt_shift),
        (Action::Retile, "R"@, alt_shift),
        (Action::ToggleMonocle, "T"@, alt),
        (Action::CycleLayout, "N"@, alt),
        (Action::CloseFocused, "Q"@, alt),
        (Action::MinimizeFocused, "M"@, alt),
    ] + Seq::new(
        16,
        |i: int|
            {
                let n = (i / 2 + 1) as u8;
                if i % 2 == 0 {
                    (Action::GoToWorkspace(n), decimal(n as nat), alt)
                } else {
                    (Action::SendToWorkspace(n), decimal(n as nat), alt_shift)
                }
            },
    )
}

/// `kbs` are the default bindings, in order.
pub open spec fn are_default_bindings(kbs: Seq<Keybinding>) -> bool {
    let t = default_binding_table();
    &&& kbs.len() == t.len()
    &&& forall|i: int| 0 <= i < kbs.len() ==> binds(#[trigger] kbs[i], t[i].0, t[i].1, t[i].2)
}

fn bind(action: Action, key: &str, modifiers: &[Modifier]) -> (kb: Keybinding)
    ensures
        binds(kb, action, key@, modifiers@),
{
    let mut mods: Vec<Modifier> = Vec::new();
    let mut i: usize = 0;
    while i < modifiers.len()
        invariant
            0 <= i <= modifiers.len(),
            mods@ == modifiers@.take(i as int),
        decreases modifiers.len() - i,
    {
        mods.push(modifiers[i]);
        assert(modifiers@.take(i + 1) =~= modifiers@.take(i as int).push(modifiers@[i as int]));
        i = i + 1;
    }
    assert(modifiers@.take(i as int) =~= modifiers@);
    Keybinding { action, key: key.to_string(), modifiers: mods }
}

/// Returns the default keybindings using vim-style motions.
///
/// Focus: Alt + H/J/K/L (left/down/up/right)
/// Move/Swap: Alt + Shift + H/J/K/L
/// Workspaces: Alt + 1..8 (switch), Alt + Shift + 1..8 (send)
/// Monocle: Alt + T
/// Cycle layout: Alt + N
/// Retile: Alt + Shift + R
/// Close / minimize the focused window: Alt + Q / Alt + M
pub fn defaults() -> (kbs: Vec<Keybinding>)
    ensures
        are_default_bindings(kbs@),
{
    let alt = [Modifier::Alt];
    let alt_shift = [Modifier::Alt, Modifier::Shift];
    assert(alt@ =~= seq![Modifier::Alt]);
    assert(alt_shift@ =~= seq![Modifier::Alt, Modifier::Shift]);
    let mut bindings: Vec<Keybinding> = Vec::new();
    bindings.push(bind(Action::Focus(Direction::Down), "J", &alt));
    bindings.push(bind(Action::Focus(Direction::Up), "K", &alt));
    bindings.push(bind(Action::Focus(Direction::Right), "L", &alt));
    bindings.push(bind(Action::Focus(Direction::Left), "H", &alt));
    bindings.push(bind(Action::Move(Direction::Down), "J", &alt_shift));
    bindings.push(bind(Action::Move(Direction::Up), "K", &alt_shift));
    bindings.push(bind(Action::Move(Direction::Right), "L", &alt_shift));
    bindings.push(bind(Action::Move(Direction::Left), "H", &alt_shift));
    bindings.push(bind(Action::Retile, "R", &alt_shift));
    bindings.push(bind(Action::ToggleMonocle, "T", &alt));
    bindings.push(bind(Action::CycleLayout, "N", &alt));
    bindings.push(bind(Action::CloseFocused, "Q", &alt));
    bindings.push(bind(Action::MinimizeFocused, "M", &alt));
    let ghost t = default_binding_table();
    assert forall|i: int| 0 <= i < 13 implies binds(#[trigger] bindings@[i], t[i].0, t[i].1, t[i].2) by {}
    let mut n: u8 = 1;
    while n <= 8
        invariant
            1 <= n <= 9,
            t == default_binding_table(),
            alt@ == seq![Modifier::Alt],
            alt_shift@ == seq![Modifier::Alt, Modifier::Shift],
            bindings@.len() == 13 + 2 * (n - 1),
            forall|i: int| 0 <= i < bindings@.len() ==> binds(#[trigger] bindings@[i], t[i].0, t[i].1, t[i].2),
        decreases 9 - n,
    {
        let key = decimal_u8(n);
        let ghost len0: int = bindings@.len() as int;
        bindings.push(bind(Action::GoToWorkspace(n), key.as_str(), &alt));
        bindings.push(bind(Action::SendToWorkspace(n), key.as_str(), &alt_shift));
        assert(((len0 - 13) / 2 + 1) as u8 == n);
        assert(((len0 + 1 - 13) / 2 + 1) as u8 == n);
        assert(binds(bindings@[len0], t[len0].0, t[len0].1, t[len0].2));
        assert(binds(bindings@[len0 + 1], t[len0 + 1].0, t[len0 + 1].1, t[len0 + 1].2));
        n = n + 1;
    }
    bindings
}

impl Keybinding {
    /// A copy of the binding.
    pub fn duplicate(&self) -> (kb: Keybinding)
        ensures
            binds(kb, self.action, self.key@, self.modifiers@),
    {
        bind(self.action, self.key.as_str(), self.modifiers.as_slice())
    }
}

/// The default bindings whose action no user binding has, in order.
pub open spec fn missing_bindings(user: Seq<Keybinding>, defaults: Seq<Keybinding>) -> Seq<Keybinding> {
    defaults.filter(|d: Keybinding| !(exists|j: int| 0 <= j < user.len() && (#[trigger] user[j]).action == d.action))
}

fn has_action(user: &Vec<Keybinding>, action: Action) -> (b: bool)
    ensures
        b == exists|j: int| 0 <= j < user@.len() && (#[trigger] user@[j]).action == action,
{
    let mut j: usize = 0;
    while j < user.len()
        invariant
            0 <= j <= user.len(),
            forall|k: int| 0 <= k < j ==> (#[trigger] user@[k]).action != action,
        decreases user.len() - j,
    {
        if user[j].action == action {
            return true;
        }
        j = j + 1;
    }
    false
}

/// The default bindings whose action the user has not bound, in the
/// order of the defaults: what to add to a user's keybindings file so
/// that new defaults are picked up without overriding the user's own.
pub fn missing_keybindings(user: &Vec<Keybinding>, defaults: &Vec<Keybinding>) -> (r: Vec<Keybinding>)
    ensures
        r@.len() == missing_bindings(user@, defaults@).len(),
        forall|i: int|
            0 <= i < r@.len() ==> binds(
                #[trigger] r@[i],
                missing_bindings(user@, defaults@)[i].action,
                missing_bindings(user@, defaults@)[i].key@,
                missing_bindings(user@, defaults@)[i].modifiers@,
            ),
{
    let ghost pred = |d: Keybinding| !(exists|j: int| 0 <= j < user@.len() && (#[trigger] user@[j]).action == d.action);
    let mut r: Vec<Keybinding> = Vec::new();
    let mut i: usize = 0;
    while i < defaults.len()
        invariant
            0 <= i <= defaults.len(),
            pred == (|d: Keybinding| !(exists|j: int| 0 <= j < user@.len() && (#[trigger] user@[j]).action == d.action)),
            r@.len() == defaults@.take(i as int).filter(pred).len(),
            forall|k: int|
                0 <= k < r@.len() ==> binds(
                    #[trigger] r@[k],
                    defaults@.take(i as int).filter(pred)[k].action,
                    defaults@.take(i as int).filter(pred)[k].key@,
                    defaults@.take(i as int).filter(pred)[k].modifiers@,
                ),
        decreases defaults.len() - i,
    {
        proof {
            reveal_with_fuel(Seq::filter, 1);
            assert(defaults@.take(i + 1).drop_last() =~= defaults@.take(i as int));
        }
        if !has_action(user, defaults[i].action) {
            r.push(defaults[i].duplicate());
        }
        i = i + 1;
    }
    assert(defaults@.take(i as int) =~= defaults@);
    r
}

/// The TOML name of a modifier.
pub open spec fn modifier_name(m: Modifier) -> Seq<char> {
    match m {
        Modifier::Alt => "alt"@,
        Modifier::Shift => "shift"@,
        Modifier::Ctrl => "ctrl"@,
        Modifier::Win => "win"@,
    }
}

/// The modifiers as a TOML array body: quoted names separated by `, `.
pub open spec fn modifier_list(ms: Seq<Modifier>) -> Seq<char>
    decreases ms.len(),
{
    if ms.len() == 0 {
        Seq::empty()
    } else if ms.len() == 1 {
        "\""@ + modifier_name(ms[0]) + "\""@
    } else {
        modifier_list(ms.drop_last()) + ", "@ + "\""@ + modifier_name(ms.last()) + "\""@
    }
}

/// The `[[keybinding]]` table for a binding.
pub open spec fn keybinding_entry(kb: Keybinding) -> Seq<char> {
    "\n[[keybinding]]\naction = \""@ + kb.action.spec_to_string() + "\"\nkey = \""@ + kb.key@ + "\"\nmodifiers = ["@
        + modifier_list(kb.modifiers@) + "]\n"@
}

fn modifier_str(m: Modifier) -> (s: &'static str)
    ensures
        s@ == modifier_name(m),
{
    match m {
        Modifier::Alt => "alt",
        Modifier::Shift => "shift",
        Modifier::Ctrl => "ctrl",
        Modifier::Win => "win",
    }
}

/// Formats a single keybinding as a `[[keybinding]]` TOML entry.
pub fn keybinding_toml_entry(kb: &Keybinding) -> (s: String)
    ensures
        s@ == keybinding_entry(*kb),
{
    let mut s = "\n[[keybinding]]\naction = \"".to_string();
    let a = kb.action.to_string();
    s.append(a.as_str());
    s.append("\"\nkey = \"");
    s.append(kb.key.as_str());
    s.append("\"\nmodifiers = [");
    let mut i: usize = 0;
    let ghost base = s@;
    while i < kb.modifiers.len()
        invariant
            0 <= i <= kb.modifiers.len(),
            s@ == base + modifier_list(kb.modifiers@.take(i as int)),
        decreases kb.modifiers.len() - i,
    {
        let ghost prev = s@;
        assert(kb.modifiers@.take(i + 1).drop_last() =~= kb.modifiers@.take(i as int));
        if i > 0 {
            s.append(", ");
        }
        s.append("\"");
        s.append(modifier_str(kb.modifiers[i]));
        s.append("\"");
        proof {
            if i == 0 {
                assert(modifier_list(kb.modifiers@.take(0)) =~= Seq::<char>::empty());
            }
        }
        assert(kb.modifiers@.take(i + 1).last() == kb.modifiers@[i as int]);
        assert(s@ =~= base + modifier_list(kb.modifiers@.take(i + 1)));
        i = i + 1;
    }
    assert(kb.modifiers@.take(i as int) =~= kb.modifiers@);
    s.append("]\n");
    assert(s@ =~= keybinding_entry(*kb));
    s
}

/// The text appended to a keybindings file for the missing bindings: a
/// comment line, then one `[[keybinding]]` table per binding.
pub open spec fn keybindings_addition(kbs: Seq<Keybinding>) -> Seq<char>
    decreases kbs.len(),
{
    if kbs.len() == 0 {
        "\n# Added automatically — new defaults from this version of mosaico\n"@
    } else {
        keybindings_addition(kbs.drop_last()) + keybinding_entry(kbs.last())
    }
}

/// The text to append to a keybindings file for the given bindings.
pub fn missing_keybindings_text(kbs: &Vec<Keybinding>) -> (s: String)
    ensures
        s@ == keybindings_addition(kbs@),
{
    let mut s = "\n# Added automatically — new defaults from this version of mosaico\n".to_string();
    let mut i: usize = 0;
    while i < kbs.len()
        invariant
            0 <= i <= kbs.len(),
            s@ == keybindings_addition(kbs@.take(i as int)),
        decreases kbs.len() - i,
    {
        assert(kbs@.take(i + 1).drop_last() =~= kbs@.take(i as int));
        let e = keybinding_toml_entry(&kbs[i]);
        s.append(e.as_str());
        i = i + 1;
    }
    assert(kbs@.take(i as int) =~= kbs@);
    s
}

/// The keybindings in effect once the missing defaults have been dealt
/// with: the user's own bindings followed by the missing ones when these
/// were appended to the user's file (`appended`), else the user's alone.
pub fn merge_keybindings(user: Vec<Keybinding>, missing: Vec<Keybinding>, appended: bool) -> (r: Vec<Keybinding>)
    ensures
        appended ==> r@ == user@ + missing@,
        !appended ==> r@ == user@,
{
    let mut r = user;
    if appended {
        let mut m = missing;
        r.append(&mut m);
    }
    r
}

/// Some binding in `kbs` has action `a`.
pub open spec fn has_binding_for(kbs: Seq<Keybinding>, a: Action) -> bool {
    exists|j: int| 0 <= j < kbs.len() && (#[trigger] kbs[j]).action == a
}

/// Merging the missing defaults into a user's bindings binds every
/// default action, and keeps the user's own bindings first, unchanged.
pub proof fn lemma_merge_binds_every_default(
    user: Seq<Keybinding>,
    defaults: Seq<Keybinding>,
    missing: Seq<Keybinding>,
)
    requires
        missing.len() == missing_bindings(user, defaults).len(),
        forall|i: int|
            0 <= i < missing.len() ==> binds(
                #[trigger] missing[i],
                missing_bindings(user, defaults)[i].action,
                missing_bindings(user, defaults)[i].key@,
                missing_bindings(user, defaults)[i].modifiers@,
            ),
    ensures
        forall|i: int| 0 <= i < defaults.len() ==> has_binding_for(user + missing, (#[trigger] defaults[i]).action),
        (user + missing).take(user.len() as int) == user,
{
    let merged = user + missing;
    let pred = |d: Keybinding| !(exists|j: int| 0 <= j < user.len() && (#[trigger] user[j]).action == d.action);
    let mb = defaults.filter(pred);
    assert(mb == missing_bindings(user, defaults));
    assert forall|i: int| 0 <= i < defaults.len() implies has_binding_for(merged, (#[trigger] defaults[i]).action) by {
        if exists|j: int| 0 <= j < user.len() && (#[trigger] user[j]).action == defaults[i].action {
            let j = choose|j: int| 0 <= j < user.len() && (#[trigger] user[j]).action == defaults[i].action;
            assert(merged[j] == user[j]);
        } else {
            assert(pred(defaults[i]));
            defaults.lemma_filter_contains(pred, i);
            let k = choose|k: int| 0 <= k < mb.len() && mb[k] == defaults[i];
            assert(binds(missing[k], mb[k].action, mb[k].key@, mb[k].modifiers@));
            assert(merged[user.len() + k] == missing[k]);
        }
    }
    assert(merged.take(user.len() as int) =~= user);
}

} // verus!
