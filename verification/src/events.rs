//! The event vocabulary of the interface and the event-source state machine.
//!
//! The collaborating I/O layer merges a periodic timer, raw terminal input and
//! a cancellation signal into one stream. Each wake-up is reported here as a
//! [`Stimulus`]; [`EventSource::step`] decides which [`Event`] (if any) is
//! delivered to the page state machine and guarantees that `Terminate` is
//! delivered at most once, with nothing after it.

use vstd::prelude::*;

use crate::password::Password;

verus! {

/// One event delivered to the page state machine.
#[derive(Debug, Clone, Copy, PartialEq, Eq, Structural)]
pub enum Event {
    Tick,
    Terminate,
    KeyEvent(KeyCode),
}

/// A state mutation announced to collaborators that mirror the listing.
pub enum StateChange {
    PasswordListChanged(Vec<Password>),
    SelectedPassword(usize),
}

/// The normalized key vocabulary: named keys plus plain/Ctrl/Alt characters.
#[derive(Debug, Clone, Copy, PartialEq, PartialOrd, Eq, Structural)]
pub enum KeyCode {
    CtrlBackspace,
    CtrlDelete,
    AltBackspace,
    AltDelete,
    Backspace,
    Left,
    Right,
    Up,
    Down,
    Home,
    End,
    PageUp,
    PageDown,
    BackTab,
    Delete,
    Insert,
    F(u8),
    Char(char),
    Alt(char),
    Ctrl(char),
    Null,
    Esc,
    Tab,
}

/// Whether this key requests application termination (`q` or `Ctrl+c`).
pub open spec fn is_terminate_spec(k: KeyCode) -> bool {
    k == KeyCode::Char('q') || k == KeyCode::Ctrl('c')
}

impl KeyCode {
    /// True exactly for the terminate keys, `q` and `Ctrl+c`.
    pub fn is_terminate(self) -> (r: bool)
        ensures
            r == is_terminate_spec(self),
    {
        match self {
            KeyCode::Char(c) => c == 'q',
            KeyCode::Ctrl(c) => c == 'c',
            _ => false,
        }
    }
}

/// A raw key code as the terminal reports it, before modifiers are applied.
#[derive(Debug, Clone, Copy, PartialEq, Eq, Structural)]
pub enum RawCode {
    Backspace,
    Delete,
    Enter,
    Left,
    Right,
    Up,
    Down,
    Home,
    End,
    PageUp,
    PageDown,
    Tab,
    BackTab,
    Insert,
    F(u8),
    Char(char),
    Null,
    Esc,
    Other,
}

/// The modifier set held while a key was pressed, collapsed to the cases the
/// interface distinguishes.
#[derive(Debug, Clone, Copy, PartialEq, Eq, Structural)]
pub enum Modifiers {
    Plain,
    Shift,
    Control,
    Alt,
    Other,
}

/// A raw key press: code plus modifiers, as handed in by the terminal layer.
#[derive(Debug, Clone, Copy, PartialEq, Eq, Structural)]
pub struct RawKeyEvent {
    pub code: RawCode,
    pub modifiers: Modifiers,
}

/// How a raw key press is folded into the normalized vocabulary:
/// Backspace/Delete combine with Ctrl and Alt, Enter becomes the newline
/// character, characters keep their modifier, and anything unrecognised is
/// `Null`.
pub open spec fn normalize_key_spec(raw: RawKeyEvent) -> KeyCode {
    match raw.code {
        RawCode::Backspace => match raw.modifiers {
            Modifiers::Control => KeyCode::CtrlBackspace,
            Modifiers::Alt => KeyCode::AltBackspace,
            _ => KeyCode::Backspace,
        },
        RawCode::Delete => match raw.modifiers {
            Modifiers::Control => KeyCode::CtrlDelete,
            Modifiers::Alt => KeyCode::AltDelete,
            _ => KeyCode::Delete,
        },
        RawCode::Enter => KeyCode::Char('\n'),
        RawCode::Left => KeyCode::Left,
        RawCode::Right => KeyCode::Right,
        RawCode::Up => KeyCode::Up,
        RawCode::Down => KeyCode::Down,
        RawCode::Home => KeyCode::Home,
        RawCode::End => KeyCode::End,
        RawCode::PageUp => KeyCode::PageUp,
        RawCode::PageDown => KeyCode::PageDown,
        RawCode::Tab => KeyCode::Tab,
        RawCode::BackTab => KeyCode::BackTab,
        RawCode::Insert => KeyCode::Insert,
        RawCode::F(k) => KeyCode::F(k),
        RawCode::Null => KeyCode::Null,
        RawCode::Esc => KeyCode::Esc,
        RawCode::Char(c) => match raw.modifiers {
            Modifiers::Plain => KeyCode::Char(c),
            Modifiers::Shift => KeyCode::Char(c),
            Modifiers::Control => KeyCode::Ctrl(c),
            Modifiers::Alt => KeyCode::Alt(c),
            Modifiers::Other => KeyCode::Null,
        },
        RawCode::Other => KeyCode::Null,
    }
}

/// Normalize a raw key press into the interface's key vocabulary.
pub fn normalize_key(raw: RawKeyEvent) -> (r: KeyCode)
    ensures
        r == normalize_key_spec(raw),
{
    match raw.code {
        RawCode::Backspace => match raw.modifiers {
            Modifiers::Control => KeyCode::CtrlBackspace,
            Modifiers::Alt => KeyCode::AltBackspace,
            _ => KeyCode::Backspace,
        },
        RawCode::Delete => match raw.modifiers {
            Modifiers::Control => KeyCode::CtrlDelete,
            Modifiers::Alt => KeyCode::AltDelete,
            _ => KeyCode::Delete,
        },
        RawCode::Enter => KeyCode::Char('\n'),
        RawCode::Left => KeyCode::Left,
        RawCode::Right => KeyCode::Right,
        RawCode::Up => KeyCode::Up,
        RawCode::Down => KeyCode::Down,
        RawCode::Home => KeyCode::Home,
        RawCode::End => KeyCode::End,
        RawCode::PageUp => KeyCode::PageUp,
        RawCode::PageDown => KeyCode::PageDown,
        RawCode::Tab => KeyCode::Tab,
        RawCode::BackTab => KeyCode::BackTab,
        RawCode::Insert => KeyCode::Insert,
        RawCode::F(k) => KeyCode::F(k),
        RawCode::Null => KeyCode::Null,
        RawCode::Esc => KeyCode::Esc,
        RawCode::Char(c) => match raw.modifiers {
            Modifiers::Plain => KeyCode::Char(c),
            Modifiers::Shift => KeyCode::Char(c),
            Modifiers::Control => KeyCode::Ctrl(c),
            Modifiers::Alt => KeyCode::Alt(c),
            Modifiers::Other => KeyCode::Null,
        },
        RawCode::Other => KeyCode::Null,
    }
}

/// One wake-up of the event-producing loop: the timer fired, a key arrived,
/// the cancellation signal was received, or the consumer hung up.
#[derive(Debug, Clone, Copy, PartialEq, Eq, Structural)]
pub enum Stimulus {
    TimerFired,
    Key(RawKeyEvent),
    Cancelled,
    ConsumerClosed,
}

/// The event source's whole state: whether it has shut down. Once terminated
/// it never produces another event.
#[derive(Debug, Clone, Copy, PartialEq, Eq, Structural)]
pub struct EventSource {
    pub terminated: bool,
}

/// What one wake-up does: the new source state and the event delivered, if
/// any. A live source turns the timer into `Tick`, a key press into its
/// normalized `KeyEvent`, and the cancellation signal into the single final
/// `Terminate`; a terminated source delivers nothing.
pub open spec fn step_spec(src: EventSource, s: Stimulus) -> (EventSource, Option<Event>) {
    if src.terminated {
        (src, None)
    } else {
        match s {
            Stimulus::TimerFired => (src, Some(Event::Tick)),
            Stimulus::Key(raw) => (src, Some(Event::KeyEvent(normalize_key_spec(raw)))),
            Stimulus::Cancelled => (EventSource { terminated: true }, Some(Event::Terminate)),
            Stimulus::ConsumerClosed => (EventSource { terminated: true }, None),
        }
    }
}

impl EventSource {
    /// A fresh, live event source.
    pub fn new() -> (r: EventSource)
        ensures
            !r.terminated,
    {
        EventSource { terminated: false }
    }

    /// Consume one wake-up and decide which event to deliver.
    pub fn step(&mut self, s: Stimulus) -> (r: Option<Event>)
        ensures
            (*final(self), r) == step_spec(*old(self), s),
            old(self).terminated ==> r is None,
            r == Some(Event::Terminate) ==> !old(self).terminated && final(self).terminated,
    {
        if self.terminated {
            None
        } else {
            match s {
                Stimulus::TimerFired => Some(Event::Tick),
                Stimulus::Key(raw) => Some(Event::KeyEvent(normalize_key(raw))),
                Stimulus::Cancelled => {
                    self.terminated = true;
                    Some(Event::Terminate)
                },
                Stimulus::ConsumerClosed => {
                    self.terminated = true;
                    None
                },
            }
        }
    }
}

/// All events a source delivers over a whole run of wake-ups, in order.
pub open spec fn run_events(src: EventSource, stimuli: Seq<Stimulus>) -> Seq<Event>
    decreases stimuli.len(),
{
    if stimuli.len() == 0 {
        Seq::empty()
    } else {
        let next = step_spec(src, stimuli[0]);
        (match next.1 {
            Some(e) => seq![e],
            None => Seq::<Event>::empty(),
        }) + run_events(next.0, stimuli.drop_first())
    }
}

/// Law: a terminated source stays silent forever: no run of wake-ups makes it
/// deliver another event.
pub proof fn lemma_terminated_source_is_silent(src: EventSource, stimuli: Seq<Stimulus>)
    requires
        src.terminated,
    ensures
        run_events(src, stimuli) =~= Seq::<Event>::empty(),
    decreases stimuli.len(),
{
    if stimuli.len() > 0 {
        lemma_terminated_source_is_silent(src, stimuli.drop_first());
    }
}

/// Law: `Terminate` is delivered at most once and nothing follows it: in any
/// run of wake-ups, if the event at position `i` is `Terminate` then it is the
/// last event of the run.
pub proof fn lemma_terminate_is_last(src: EventSource, stimuli: Seq<Stimulus>, i: int)
    requires
        0 <= i < run_events(src, stimuli).len(),
        run_events(src, stimuli)[i] is Terminate,
    ensures
        i == run_events(src, stimuli).len() - 1,
    decreases stimuli.len(),
{
    if stimuli.len() > 0 {
        let next = step_spec(src, stimuli[0]);
        if !src.terminated && stimuli[0] is Cancelled {
            lemma_terminated_source_is_silent(next.0, stimuli.drop_first());
        } else if i >= 1 || next.1 is None {
            let shift: int = if next.1 is Some { 1 } else { 0 };
            lemma_terminate_is_last(next.0, stimuli.drop_first(), i - shift);
        }
    }
}

} // verus!
