use vstd::prelude::*;
use crate::platform::{PastePlan, Platform, paste_plan, paste_keys_spec, settle_delay_spec};
use crate::segment::{TextManager, segment_view};

verus! {

/// Whether the hotkey went down or came up.
#[derive(Clone, Copy, Debug, PartialEq, Eq, Structural)]
pub enum HotkeyState {
    Pressed,
    Released,
}

/// What woke the loop.
#[derive(Clone, Copy, Debug, PartialEq, Eq, Structural)]
pub enum LoopEvent {
    Hotkey(HotkeyState),
    CloseRequested,
    Other,
}

/// What one accepted hotkey press asks the loop to do.
pub struct Transaction {
    /// Text to put on the clipboard; `None` for an empty segment or none at all.
    pub publish: Option<String>,
    /// The next segment to show the operator, when it has text.
    pub show: Option<(String, Option<String>)>,
    /// No segment is left: the loop ends after this transaction.
    pub finished: bool,
}

/// The loop's answer to an event.
pub enum Step {
    /// Nothing to do; wait for the next event.
    Wait,
    /// The window closed: leave the loop.
    Close,
    /// Carry out a transaction.
    Run(Transaction),
}

/// `s` if it has text, else `None`.
pub open spec fn shown(s: Option<(Seq<char>, Option<Seq<char>>)>) -> Option<
    (Seq<char>, Option<Seq<char>>),
> {
    match s {
        Some((t, n)) => if t.len() > 0 {
            Some((t, n))
        } else {
            None
        },
        None => None,
    }
}

/// The text to publish for a consumed segment: its text, unless empty.
pub open spec fn published(s: Option<(Seq<char>, Option<Seq<char>>)>) -> Option<Seq<char>> {
    match s {
        Some((t, _)) => if t.len() > 0 {
            Some(t)
        } else {
            None
        },
        None => None,
    }
}

/// An optional text seen as a sequence of characters.
pub open spec fn string_view(s: Option<String>) -> Option<Seq<char>> {
    match s {
        Some(t) => Some(t@),
        None => None,
    }
}

/// The store's next segment, for display: `None` when there is none or its text is empty.
pub fn preview_to_show(store: &TextManager) -> (r: Option<(String, Option<String>)>)
    requires
        store.wf(),
    ensures
        segment_view(r) == shown(store.upcoming()),
{
    match store.preview_next_segment() {
        Some((t, n)) => if !t.as_str().is_empty() {
            Some((t, n))
        } else {
            None
        },
        None => None,
    }
}

/// The dispatch controller: a store, the auto-paste setting, and whether
/// the last segment has been handed out.
pub struct Dispatcher {
    store: TextManager,
    auto_paste: bool,
    platform: Platform,
    done: bool,
}

impl Dispatcher {
    /// The segment store.
    pub closed spec fn store_spec(&self) -> TextManager {
        self.store
    }

    /// Whether a published segment is also pasted.
    pub closed spec fn auto_paste_spec(&self) -> bool {
        self.auto_paste
    }

    /// The platform the keystrokes are sent on.
    pub closed spec fn platform_spec(&self) -> Platform {
        self.platform
    }

    /// The terminal state has been reached.
    pub closed spec fn is_done(&self) -> bool {
        self.done
    }

    /// The store is well formed, and the terminal state is reached only once it is exhausted.
    pub closed spec fn wf(&self) -> bool {
        &&& self.store.wf()
        &&& self.done ==> self.store.exhausted()
    }

    /// A controller that has not dispatched anything yet.
    pub fn new(store: TextManager, auto_paste: bool, platform: Platform) -> (r: Dispatcher)
        requires
            store.wf(),
        ensures
            r.wf(),
            r.store_spec() == store,
            r.auto_paste_spec() == auto_paste,
            r.platform_spec() == platform,
            !r.is_done(),
    {
        Dispatcher { store, auto_paste, platform, done: false }
    }

    /// The next segment to show the operator, if it has text.
    pub fn preview(&self) -> (r: Option<(String, Option<String>)>)
        requires
            self.wf(),
        ensures
            segment_view(r) == shown(self.store_spec().upcoming()),
    {
        preview_to_show(&self.store)
    }

    /// Decides what to do on `event`. A hotkey press consumes one segment and
    /// yields a transaction that publishes it (when it has text), shows the
    /// segment after it, and finishes the run when none is left. Releases and
    /// other events change nothing; a close request leaves the loop. Once
    /// finished, every event is ignored.
    pub fn handle(&mut self, event: LoopEvent) -> (r: Step)
        requires
            old(self).wf(),
        ensures
            final(self).wf(),
            final(self).auto_paste_spec() == old(self).auto_paste_spec(),
            final(self).platform_spec() == old(self).platform_spec(),
            old(self).is_done() ==> r is Wait && *final(self) == *old(self),
            !old(self).is_done() ==> match event {
                LoopEvent::Hotkey(HotkeyState::Pressed) => match r {
                    Step::Run(t) => {
                        let before = old(self).store_spec();
                        let after = final(self).store_spec();
                        &&& after.document() == before.document()
                        &&& after.delim() == before.delim()
                        &&& before.exhausted() ==> after.cursor() == before.cursor()
                        &&& !before.exhausted() ==> after.cursor() == crate::segment::next_cursor(
                            before.document(),
                            before.delim(),
                            before.cursor(),
                        )
                        &&& string_view(t.publish) == published(before.upcoming())
                        &&& segment_view(t.show) == shown(after.upcoming())
                        &&& t.finished == after.exhausted()
                        &&& final(self).is_done() == t.finished
                    },
                    _ => false,
                },
                LoopEvent::CloseRequested => r is Close && *final(self) == *old(self),
                _ => r is Wait && *final(self) == *old(self),
            },
    {
        if self.done {
            return Step::Wait;
        }
        match event {
            LoopEvent::Hotkey(HotkeyState::Pressed) => {
                let publish = match self.store.get_next_segment() {
                    Some((t, _)) => if !t.as_str().is_empty() {
                        Some(t)
                    } else {
                        None
                    },
                    None => None,
                };
                let show = preview_to_show(&self.store);
                let finished = self.store.preview_next_segment().is_none();
                self.done = finished;
                Step::Run(Transaction { publish, show, finished })
            },
            LoopEvent::CloseRequested => Step::Close,
            _ => Step::Wait,
        }
    }

    /// The paste to perform once the clipboard write of a transaction has
    /// returned: none when the write failed or auto-paste is off.
    pub fn after_publish(&self, publish_ok: bool) -> (r: Option<PastePlan>)
        ensures
            r is Some <==> publish_ok && self.auto_paste_spec(),
            r is Some ==> r->0.settle_ms == settle_delay_spec(self.platform_spec()) && r->0.keys@
                == paste_keys_spec(self.platform_spec()),
    {
        if publish_ok && self.auto_paste {
            Some(paste_plan(self.platform))
        } else {
            None
        }
    }
}

} // verus!
