//! Window rule types and evaluation logic.
//!
//! Rules determine which windows Mosaico should manage (tile) and
//! which should be left floating. They are evaluated in order — the
//! first matching rule wins.

use vstd::prelude::*;
use crate::text::{chars_contains, contains_seq, eq_ignore_case, lower_chars, lower_seq, occurs_at, str_chars, str_eq_ignore_case};

verus! {

/// A rule that determines whether a window should be managed (tiled).
///
/// Rules are evaluated in order. The first matching rule wins.
/// If no rule matches, the window is managed by default.
#[derive(Debug, Clone)]
pub struct WindowRule {
    /// Match windows with this exact class name (case-insensitive).
    pub match_class: Option<String>,
    /// Match windows whose title contains this string (case-insensitive);
    /// the empty string matches only an empty title.
    pub match_title: Option<String>,
    /// Whether matching windows should be managed (tiled).
    pub manage: bool,
}

/// Whether `rule` matches a window of class `class` with title `title`:
/// every condition the rule sets holds, and it sets at least one.
pub open spec fn rule_matches(class: Seq<char>, title: Seq<char>, rule: WindowRule) -> bool {
    &&& (rule.match_class matches Some(mc) ==> eq_ignore_case(class, mc@))
    &&& (rule.match_title matches Some(mt) ==> if mt@.len() == 0 {
        title.len() == 0
    } else {
        contains_seq(lower_seq(title), lower_seq(mt@))
    })
    &&& (rule.match_class is Some || rule.match_title is Some)
}

/// The decision of the first rule that matches, or `true` (manage) when
/// none does.
pub open spec fn spec_should_manage(class: Seq<char>, title: Seq<char>, rules: Seq<WindowRule>) -> bool
    decreases rules.len(),
{
    if rules.len() == 0 {
        true
    } else if rule_matches(class, title, rules[0]) {
        rules[0].manage
    } else {
        spec_should_manage(class, title, rules.drop_first())
    }
}

/// Returns the default window rules (empty).
///
/// Rules are sourced from the community `rules.toml` and the user's
/// `user-rules.toml`.
pub fn default_rules() -> (r: Vec<WindowRule>)
    ensures
        r@.len() == 0,
{
    Vec::new()
}

fn matches_rule(class: &str, title: &str, rule: &WindowRule) -> (b: bool)
    ensures
        b == rule_matches(class@, title@, *rule),
{
    match &rule.match_class {
        Some(mc) => {
            if !str_eq_ignore_case(class, mc.as_str()) {
                return false;
            }
        },
        None => {},
    }
    match &rule.match_title {
        Some(mt) => {
            if mt.as_str().is_empty() {
                if !title.is_empty() {
                    return false;
                }
            } else {
                let t = lower_chars(&str_chars(title));
                let m = lower_chars(&str_chars(mt.as_str()));
                if !chars_contains(&t, &m) {
                    return false;
                }
            }
        },
        None => {},
    }
    rule.match_class.is_some() || rule.match_title.is_some()
}

/// Evaluates window rules to decide if a window should be managed.
///
/// Returns the `manage` setting of the first rule that matches, or
/// `true` when no rule matches.
pub fn should_manage(class: &str, title: &str, rules: &[WindowRule]) -> (b: bool)
    ensures
        b == spec_should_manage(class@, title@, rules@),
{
    let mut i: usize = 0;
    assert(rules@.skip(0) =~= rules@);
    while i < rules.len()
        invariant
            0 <= i <= rules.len(),
            spec_should_manage(class@, title@, rules@) == spec_should_manage(class@, title@, rules@.skip(i as int)),
        decreases rules.len() - i,
    {
        assert(rules@.skip(i as int)[0] == rules@[i as int]);
        if matches_rule(class, title, &rules[i]) {
            return rules[i].manage;
        }
        assert(rules@.skip(i as int).drop_first() =~= rules@.skip(i + 1));
        i = i + 1;
    }
    true
}

/// A rule that sets neither a class nor a title never matches.
pub proof fn lemma_unconditional_rule_never_matches(class: Seq<char>, title: Seq<char>, rule: WindowRule)
    requires
        rule.match_class is None,
        rule.match_title is None,
    ensures
        !rule_matches(class, title, rule),
{
}

/// Rules put in front of a list take priority: when one of `first`
/// matches, the decision of `first ++ rest` is that of `first` alone,
/// and otherwise it is that of `rest`.
pub proof fn lemma_rules_prepend(class: Seq<char>, title: Seq<char>, first: Seq<WindowRule>, rest: Seq<WindowRule>)
    ensures
        (exists|i: int| 0 <= i < first.len() && rule_matches(class, title, #[trigger] first[i]))
            ==> spec_should_manage(class, title, first + rest) == spec_should_manage(class, title, first),
        (forall|i: int| 0 <= i < first.len() ==> !rule_matches(class, title, #[trigger] first[i]))
            ==> spec_should_manage(class, title, first + rest) == spec_should_manage(class, title, rest),
    decreases first.len(),
{
    if first.len() > 0 {
        assert((first + rest).drop_first() =~= first.drop_first() + rest);
        assert((first + rest)[0] == first[0]);
        lemma_rules_prepend(class, title, first.drop_first(), rest);
        if !rule_matches(class, title, first[0]) {
            assert forall|i: int| 0 <= i < first.len() - 1 && rule_matches(class, title, #[trigger] first.drop_first()[i]) implies
                rule_matches(class, title, first[i + 1]) by {}
            if exists|i: int| 0 <= i < first.len() && rule_matches(class, title, #[trigger] first[i]) {
                let i = choose|i: int| 0 <= i < first.len() && rule_matches(class, title, #[trigger] first[i]);
                assert(rule_matches(class, title, first.drop_first()[i - 1]));
            }
            assert((forall|i: int| 0 <= i < first.len() ==> !rule_matches(class, title, #[trigger] first[i]))
                ==> (forall|i: int| 0 <= i < first.len() - 1 ==> !rule_matches(class, title, #[trigger] first.drop_first()[i]))) by {
                if forall|i: int| 0 <= i < first.len() ==> !rule_matches(class, title, #[trigger] first[i]) {
                    assert forall|i: int| 0 <= i < first.len() - 1 implies !rule_matches(class, title, #[trigger] first.drop_first()[i]) by {
                        assert(first.drop_first()[i] == first[i + 1]);
                    }
                }
            }
        }
    } else {
        assert(first + rest =~= rest);
    }
}

/// The merged rule list: user rules first, so that they take priority
/// over the community rules.
pub fn merge_rules(user: Vec<WindowRule>, community: Vec<WindowRule>) -> (r: Vec<WindowRule>)
    ensures
        r@ == user@ + community@,
{
    let mut r = user;
    let mut c = community;
    r.append(&mut c);
    r
}


/// A rule that names a class is passed over for a window of any other
/// class: unless the class equals the rule's class letter for letter,
/// ignoring ASCII case, the decision is that of the rules after it. In
/// particular a class of another length, such as the rule's class with
/// characters appended, never matches.
pub proof fn lemma_class_must_be_equal(class: Seq<char>, title: Seq<char>, rule: WindowRule, rest: Seq<WindowRule>)
    requires
        rule.match_class is Some,
        lower_seq(class) != lower_seq(rule.match_class->0@) || class.len() != rule.match_class->0@.len(),
    ensures
        spec_should_manage(class, title, seq![rule] + rest) == spec_should_manage(class, title, rest),
{
    assert((seq![rule] + rest)[0] == rule);
    assert((seq![rule] + rest).drop_first() =~= rest);
    assert(lower_seq(class).len() == class.len());
    assert(lower_seq(rule.match_class->0@).len() == rule.match_class->0@.len());
}

/// A rule that names only a class decides for every window whose class
/// equals it ignoring ASCII case, whatever the title, and for no other.
pub proof fn lemma_class_rule_decides(class: Seq<char>, title: Seq<char>, rule: WindowRule, rest: Seq<WindowRule>)
    requires
        rule.match_class is Some,
        rule.match_title is None,
    ensures
        spec_should_manage(class, title, seq![rule] + rest) == if lower_seq(class) == lower_seq(
            rule.match_class->0@,
        ) {
            rule.manage
        } else {
            spec_should_manage(class, title, rest)
        },
{
    assert((seq![rule] + rest)[0] == rule);
    assert((seq![rule] + rest).drop_first() =~= rest);
}

/// A rule that names only a non-empty title decides for exactly the
/// windows whose title holds it as a run of consecutive characters,
/// ignoring ASCII case; an empty title condition decides for exactly the
/// windows with an empty title.
pub proof fn lemma_title_rule_decides(class: Seq<char>, title: Seq<char>, rule: WindowRule, rest: Seq<WindowRule>)
    requires
        rule.match_class is None,
        rule.match_title is Some,
    ensures
        ({
            let mt = rule.match_title->0@;
            let found = exists|i: int|
                0 <= i && i + mt.len() <= title.len() && #[trigger] lower_seq(title).subrange(i, i + mt.len())
                    == lower_seq(mt);
            let decides = if mt.len() == 0 {
                title.len() == 0
            } else {
                found
            };
            spec_should_manage(class, title, seq![rule] + rest) == if decides {
                rule.manage
            } else {
                spec_should_manage(class, title, rest)
            }
        }),
{
    let mt = rule.match_title->0@;
    assert((seq![rule] + rest)[0] == rule);
    assert((seq![rule] + rest).drop_first() =~= rest);
    assert(lower_seq(title).len() == title.len());
    assert(lower_seq(mt).len() == mt.len());
    if contains_seq(lower_seq(title), lower_seq(mt)) {
        let i = choose|i: int| occurs_at(lower_seq(title), lower_seq(mt), i);
        assert(lower_seq(title).subrange(i, i + mt.len()) == lower_seq(mt));
    }
    if exists|i: int|
        0 <= i && i + mt.len() <= title.len() && #[trigger] lower_seq(title).subrange(i, i + mt.len())
            == lower_seq(mt) {
        let i = choose|i: int|
            0 <= i && i + mt.len() <= title.len() && #[trigger] lower_seq(title).subrange(i, i + mt.len())
                == lower_seq(mt);
        assert(occurs_at(lower_seq(title), lower_seq(mt), i));
    }
}


/// A rule with both a class and a title decides for exactly the windows
/// that meet both: the class equal ignoring ASCII case, and the title
/// holding the rule's title (or both empty when the rule's title is).
pub proof fn lemma_both_conditions_needed(class: Seq<char>, title: Seq<char>, rule: WindowRule, rest: Seq<WindowRule>)
    requires
        rule.match_class is Some,
        rule.match_title is Some,
    ensures
        ({
            let mt = rule.match_title->0@;
            let found = exists|i: int|
                0 <= i && i + mt.len() <= title.len() && #[trigger] lower_seq(title).subrange(i, i + mt.len())
                    == lower_seq(mt);
            let title_ok = if mt.len() == 0 {
                title.len() == 0
            } else {
                found
            };
            let class_ok = lower_seq(class) == lower_seq(rule.match_class->0@);
            spec_should_manage(class, title, seq![rule] + rest) == if class_ok && title_ok {
                rule.manage
            } else {
                spec_should_manage(class, title, rest)
            }
        }),
{
    let t_rule = WindowRule { match_class: None, match_title: rule.match_title, manage: rule.manage };
    lemma_title_rule_decides(class, title, t_rule, rest);
    assert((seq![rule] + rest)[0] == rule);
    assert((seq![rule] + rest).drop_first() =~= rest);
    assert((seq![t_rule] + rest)[0] == t_rule);
    assert((seq![t_rule] + rest).drop_first() =~= rest);
}

} // verus!
