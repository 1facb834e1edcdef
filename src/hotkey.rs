use vstd::prelude::*;
use crate::segment::chars_of;
use crate::text::same_text;

verus! {

/// Upper-case form of a text (see `uppercase`).
pub uninterp spec fn upper_of(s: Seq<char>) -> Seq<char>;

/// Relies on `str::to_uppercase`: the upper-case form of `s`, which depends
/// on its characters alone.
#[verifier::external_body]
fn uppercase(s: &str) -> (r: String)
    ensures
        r@ == upper_of(s@),
{
    s.to_uppercase()
}

/// A modifier of the global hotkey.
#[derive(Clone, Copy, Debug, PartialEq, Eq, Structural)]
pub enum Modifier {
    Super,
    Control,
    Alt,
    Shift,
}

/// The key of the global hotkey.
#[derive(Clone, Copy, Debug, PartialEq, Eq, Structural)]
pub enum HotkeyKey {
    /// `'A'` to `'Z'`.
    Letter(char),
    /// `'0'` to `'9'`.
    Digit(char),
    Space,
    Enter,
}

/// The modifiers that are held together with the key.
#[derive(Clone, Copy, Debug, PartialEq, Eq, Structural)]
pub struct ModifierSet {
    pub super_key: bool,
    pub control: bool,
    pub alt: bool,
    pub shift: bool,
}

/// The modifier that an upper-case name stands for.
pub open spec fn modifier_named(u: Seq<char>) -> Option<Modifier> {
    if u == seq!['C', 'M', 'D'] || u == seq!['W', 'I', 'N'] || u == seq!['M', 'E', 'T', 'A'] {
        Some(Modifier::Super)
    } else if u == seq!['C', 'T', 'R', 'L'] || u == seq!['C', 'O', 'N', 'T', 'R', 'O', 'L'] {
        Some(Modifier::Control)
    } else if u == seq!['A', 'L', 'T'] || u == seq!['O', 'P', 'T', 'I', 'O', 'N'] {
        Some(Modifier::Alt)
    } else if u == seq!['S', 'H', 'I', 'F', 'T'] {
        Some(Modifier::Shift)
    } else {
        None
    }
}

/// The key that an upper-case name stands for.
pub open spec fn key_named(u: Seq<char>) -> Option<HotkeyKey> {
    if u.len() == 1 && 'A' <= u[0] <= 'Z' {
        Some(HotkeyKey::Letter(u[0]))
    } else if u.len() == 1 && '0' <= u[0] <= '9' {
        Some(HotkeyKey::Digit(u[0]))
    } else if u == seq!['S', 'P', 'A', 'C', 'E'] {
        Some(HotkeyKey::Space)
    } else if u == seq!['E', 'N', 'T', 'E', 'R'] || u == seq!['R', 'E', 'T', 'U', 'R', 'N'] {
        Some(HotkeyKey::Enter)
    } else {
        None
    }
}

/// Some name among `names` stands, upper-cased, for `m`.
pub open spec fn names_modifier(names: Seq<String>, m: Modifier) -> bool {
    exists|i: int| 0 <= i < names.len() && modifier_named(upper_of(names[i]@)) == Some(m)
}

/// The modifier that the upper-case name `u` stands for.
pub fn modifier_from_upper(u: &str) -> (r: Option<Modifier>)
    ensures
        r == modifier_named(u@),
{
    proof {
        reveal_strlit("CMD");
        reveal_strlit("WIN");
        reveal_strlit("META");
        reveal_strlit("CTRL");
        reveal_strlit("CONTROL");
        reveal_strlit("ALT");
        reveal_strlit("OPTION");
        reveal_strlit("SHIFT");
    }
    assert("CMD"@ =~= seq!['C', 'M', 'D']);
    assert("WIN"@ =~= seq!['W', 'I', 'N']);
    assert("META"@ =~= seq!['M', 'E', 'T', 'A']);
    assert("CTRL"@ =~= seq!['C', 'T', 'R', 'L']);
    assert("CONTROL"@ =~= seq!['C', 'O', 'N', 'T', 'R', 'O', 'L']);
    assert("ALT"@ =~= seq!['A', 'L', 'T']);
    assert("OPTION"@ =~= seq!['O', 'P', 'T', 'I', 'O', 'N']);
    assert("SHIFT"@ =~= seq!['S', 'H', 'I', 'F', 'T']);
    if same_text(u, "CMD") || same_text(u, "WIN") || same_text(u, "META") {
        Some(Modifier::Super)
    } else if same_text(u, "CTRL") || same_text(u, "CONTROL") {
        Some(Modifier::Control)
    } else if same_text(u, "ALT") || same_text(u, "OPTION") {
        Some(Modifier::Alt)
    } else if same_text(u, "SHIFT") {
        Some(Modifier::Shift)
    } else {
        None
    }
}

/// The modifier that `name` stands for, in any letter case.
pub fn parse_modifier(name: &str) -> (r: Option<Modifier>)
    ensures
        r == modifier_named(upper_of(name@)),
{
    let u = uppercase(name);
    modifier_from_upper(u.as_str())
}

/// The key that the upper-case name `u` stands for.
pub fn key_from_upper(u: &str) -> (r: Option<HotkeyKey>)
    ensures
        r == key_named(u@),
{
    proof {
        reveal_strlit("SPACE");
        reveal_strlit("ENTER");
        reveal_strlit("RETURN");
    }
    assert("SPACE"@ =~= seq!['S', 'P', 'A', 'C', 'E']);
    assert("ENTER"@ =~= seq!['E', 'N', 'T', 'E', 'R']);
    assert("RETURN"@ =~= seq!['R', 'E', 'T', 'U', 'R', 'N']);
    let c = chars_of(u);
    if c.len() == 1 && 'A' <= c[0] && c[0] <= 'Z' {
        Some(HotkeyKey::Letter(c[0]))
    } else if c.len() == 1 && '0' <= c[0] && c[0] <= '9' {
        Some(HotkeyKey::Digit(c[0]))
    } else if same_text(u, "SPACE") {
        Some(HotkeyKey::Space)
    } else if same_text(u, "ENTER") || same_text(u, "RETURN") {
        Some(HotkeyKey::Enter)
    } else {
        None
    }
}

/// The key that `name` stands for, in any letter case; `None` for an unsupported key.
pub fn parse_key(name: &str) -> (r: Option<HotkeyKey>)
    ensures
        r == key_named(upper_of(name@)),
{
    let u = uppercase(name);
    key_from_upper(u.as_str())
}

/// Some name among `names` stands, upper-cased, for no modifier.
pub open spec fn names_unknown(names: Seq<String>) -> bool {
    exists|i: int| 0 <= i < names.len() && modifier_named(upper_of(names[i]@)) is None
}

/// The modifiers that `names` stand for; `None` when some name stands for none.
pub fn modifiers_from_names(names: &Vec<String>) -> (r: Option<ModifierSet>)
    ensures
        r is None <==> names_unknown(names@),
        r matches Some(m) ==> {
            &&& m.super_key == names_modifier(names@, Modifier::Super)
            &&& m.control == names_modifier(names@, Modifier::Control)
            &&& m.alt == names_modifier(names@, Modifier::Alt)
            &&& m.shift == names_modifier(names@, Modifier::Shift)
        },
{
    let mut r = ModifierSet { super_key: false, control: false, alt: false, shift: false };
    let mut i: usize = 0;
    while i < names.len()
        invariant
            i <= names.len(),
            !names_unknown(names@.take(i as int)),
            r.super_key == names_modifier(names@.take(i as int), Modifier::Super),
            r.control == names_modifier(names@.take(i as int), Modifier::Control),
            r.alt == names_modifier(names@.take(i as int), Modifier::Alt),
            r.shift == names_modifier(names@.take(i as int), Modifier::Shift),
        decreases names.len() - i,
    {
        let m = parse_modifier(names[i].as_str());
        let ghost prev = names@.take(i as int);
        let ghost next = names@.take(i + 1);
        assert(forall|k: int| 0 <= k < i ==> next[k] == prev[k]);
        assert(next[i as int] == names@[i as int]);
        match m {
            Some(Modifier::Super) => r.super_key = true,
            Some(Modifier::Control) => r.control = true,
            Some(Modifier::Alt) => r.alt = true,
            Some(Modifier::Shift) => r.shift = true,
            None => {
                assert(names_unknown(names@));
                return None;
            },
        }
        i = i + 1;
    }
    assert(names@.take(names.len() as int) =~= names@);
    Some(r)
}

} // verus!
