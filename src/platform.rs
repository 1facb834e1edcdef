use vstd::prelude::*;

verus! {

/// The operating system family the paste keystrokes are sent on.
#[derive(Clone, Copy, Debug, PartialEq, Eq, Structural)]
pub enum Platform {
    MacOs,
    Windows,
    Other,
}

/// A key that the paste sequence touches.
#[derive(Clone, Copy, Debug, PartialEq, Eq, Structural)]
pub enum PasteKey {
    Meta,
    Control,
    V,
}

/// What is done to a key.
#[derive(Clone, Copy, Debug, PartialEq, Eq, Structural)]
pub enum KeyAction {
    Press,
    Release,
    Click,
}

/// One synthesized key event.
#[derive(Clone, Copy, Debug, PartialEq, Eq, Structural)]
pub struct KeyStroke {
    pub key: PasteKey,
    pub action: KeyAction,
}

/// How to paste: wait `settle_ms` milliseconds, then send `keys` in order,
/// stopping at the first that fails.
pub struct PastePlan {
    pub settle_ms: u64,
    pub keys: Vec<KeyStroke>,
}

/// Milliseconds to wait after a clipboard write before the paste keystrokes,
/// so that the new contents are visible to the receiving application.
pub open spec fn settle_delay_spec(p: Platform) -> u64 {
    match p {
        Platform::Windows => 2000,
        _ => 100,
    }
}

/// The modifier that pastes together with `V`.
pub open spec fn paste_modifier_spec(p: Platform) -> PasteKey {
    match p {
        Platform::MacOs => PasteKey::Meta,
        _ => PasteKey::Control,
    }
}

/// Press the modifier, click `V`, release the modifier.
pub open spec fn paste_keys_spec(p: Platform) -> Seq<KeyStroke> {
    seq![
        KeyStroke { key: paste_modifier_spec(p), action: KeyAction::Press },
        KeyStroke { key: PasteKey::V, action: KeyAction::Click },
        KeyStroke { key: paste_modifier_spec(p), action: KeyAction::Release },
    ]
}

/// The settle delay, in milliseconds, for `p`.
pub fn settle_delay_ms(p: Platform) -> (r: u64)
    ensures
        r == settle_delay_spec(p),
{
    match p {
        Platform::Windows => 2000,
        _ => 100,
    }
}

/// The modifier key that pastes on `p`.
pub fn paste_modifier(p: Platform) -> (r: PasteKey)
    ensures
        r == paste_modifier_spec(p),
{
    match p {
        Platform::MacOs => PasteKey::Meta,
        _ => PasteKey::Control,
    }
}

/// The paste sequence for `p`.
pub fn paste_plan(p: Platform) -> (r: PastePlan)
    ensures
        r.settle_ms == settle_delay_spec(p),
        r.keys@ == paste_keys_spec(p),
{
    let m = paste_modifier(p);
    let mut keys: Vec<KeyStroke> = Vec::new();
    keys.push(KeyStroke { key: m, action: KeyAction::Press });
    keys.push(KeyStroke { key: PasteKey::V, action: KeyAction::Click });
    keys.push(KeyStroke { key: m, action: KeyAction::Release });
    assert(keys@ =~= paste_keys_spec(p));
    PastePlan { settle_ms: settle_delay_ms(p), keys }
}

} // verus!
