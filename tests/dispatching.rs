use easypaste::dispatch::{preview_to_show, Dispatcher, HotkeyState, LoopEvent, Step, Transaction};
use easypaste::platform::{
    paste_modifier, paste_plan, settle_delay_ms, KeyAction, KeyStroke, PasteKey, Platform,
};
use easypaste::segment::TextManager;

fn dispatcher(doc: &str, auto_paste: bool) -> Dispatcher {
    Dispatcher::new(TextManager::new(doc.to_string(), "%%%".to_string()), auto_paste, Platform::Other)
}

fn run(step: Step) -> Transaction {
    match step {
        Step::Run(t) => t,
        _ => panic!("expected a transaction"),
    }
}

const PRESS: LoopEvent = LoopEvent::Hotkey(HotkeyState::Pressed);

#[test]
fn press_publishes_and_previews() {
    let mut d = dispatcher("A%%% note1\nB%%% note2\nC", true);
    assert_eq!(d.preview(), Some(("A".to_string(), Some("note1".to_string()))));
    let t = run(d.handle(PRESS));
    assert_eq!(t.publish, Some("A".to_string()));
    assert_eq!(t.show, Some(("B".to_string(), Some("note2".to_string()))));
    assert!(!t.finished);
    let t = run(d.handle(PRESS));
    assert_eq!(t.publish, Some("B".to_string()));
    assert_eq!(t.show, Some(("C".to_string(), None)));
    assert!(!t.finished);
    let t = run(d.handle(PRESS));
    assert_eq!(t.publish, Some("C".to_string()));
    assert_eq!(t.show, None);
    assert!(t.finished);
}

#[test]
fn finished_dispatcher_ignores_events() {
    let mut d = dispatcher("only", false);
    assert!(run(d.handle(PRESS)).finished);
    assert!(matches!(d.handle(PRESS), Step::Wait));
    assert!(matches!(d.handle(LoopEvent::CloseRequested), Step::Wait));
}

#[test]
fn release_and_other_events_wait() {
    let mut d = dispatcher("a%%%\nb", true);
    assert!(matches!(d.handle(LoopEvent::Hotkey(HotkeyState::Released)), Step::Wait));
    assert!(matches!(d.handle(LoopEvent::Other), Step::Wait));
    assert_eq!(d.preview(), Some(("a".to_string(), None)));
}

#[test]
fn close_request_closes() {
    let mut d = dispatcher("a", true);
    assert!(matches!(d.handle(LoopEvent::CloseRequested), Step::Close));
    assert_eq!(d.preview(), Some(("a".to_string(), None)));
}

#[test]
fn empty_segment_is_not_published() {
    let mut d = dispatcher("%%%\nnext", true);
    let t = run(d.handle(PRESS));
    assert_eq!(t.publish, None);
    assert_eq!(t.show, Some(("next".to_string(), None)));
    assert!(!t.finished);
}

#[test]
fn empty_segment_ahead_is_not_shown() {
    let mut d = dispatcher("a%%%\n%%%\nb", true);
    let t = run(d.handle(PRESS));
    assert_eq!(t.publish, Some("a".to_string()));
    assert_eq!(t.show, None);
    assert!(!t.finished);
}

#[test]
fn empty_document_finishes_on_first_press() {
    let mut d = dispatcher("", true);
    let t = run(d.handle(PRESS));
    assert_eq!(t.publish, None);
    assert_eq!(t.show, None);
    assert!(t.finished);
}

#[test]
fn preview_to_show_skips_empty_text() {
    let tm = TextManager::new("%%%x\ny".to_string(), "%%%".to_string());
    assert_eq!(preview_to_show(&tm), None);
    let tm = TextManager::new("y".to_string(), "%%%".to_string());
    assert_eq!(preview_to_show(&tm), Some(("y".to_string(), None)));
}

#[test]
fn paste_follows_successful_publish_only() {
    let d = dispatcher("a", true);
    assert!(d.after_publish(false).is_none());
    let plan = d.after_publish(true).unwrap();
    assert_eq!(plan.settle_ms, 100);
    assert_eq!(plan.keys.len(), 3);
    let off = dispatcher("a", false);
    assert!(off.after_publish(true).is_none());
}

#[test]
fn platform_delays_and_modifiers() {
    assert_eq!(settle_delay_ms(Platform::Windows), 2000);
    assert_eq!(settle_delay_ms(Platform::MacOs), 100);
    assert_eq!(settle_delay_ms(Platform::Other), 100);
    assert_eq!(paste_modifier(Platform::MacOs), PasteKey::Meta);
    assert_eq!(paste_modifier(Platform::Windows), PasteKey::Control);
}

#[test]
fn paste_sequence_presses_clicks_releases() {
    let plan = paste_plan(Platform::MacOs);
    assert_eq!(plan.settle_ms, 100);
    assert_eq!(
        plan.keys,
        vec![
            KeyStroke { key: PasteKey::Meta, action: KeyAction::Press },
            KeyStroke { key: PasteKey::V, action: KeyAction::Click },
            KeyStroke { key: PasteKey::Meta, action: KeyAction::Release },
        ]
    );
    let plan = paste_plan(Platform::Windows);
    assert_eq!(plan.settle_ms, 2000);
    assert_eq!(plan.keys[0], KeyStroke { key: PasteKey::Control, action: KeyAction::Press });
}
