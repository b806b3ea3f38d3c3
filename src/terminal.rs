use crate::action::Action;
use crate::config::Args;
use crate::control::Control;
use crate::dispatch::dispatcher_continues;
use vstd::prelude::*;

verus! {

/// The key of a terminal key event, as far as the listener tells keys apart.
#[derive(Clone, Copy, Debug, PartialEq, Eq, Structural)]
pub enum TermKey {
    Char(char),
    Other,
}

/// An event read from the terminal.
#[derive(Clone, Copy, Debug, PartialEq, Eq, Structural)]
pub enum TermEvent {
    FocusGained,
    FocusLost,
    Resize(u16, u16),
    /// A key event; `release` is set for the release half of a key stroke.
    Key { key: TermKey, release: bool },
    /// Anything else the terminal reports (mouse, paste).
    Other,
}

/// What the terminal listener does after one event: the action to send, if
/// any, and whether it stops listening afterwards.
#[derive(Clone, Copy, Debug, PartialEq, Eq, Structural)]
pub struct Step {
    pub send: Option<Action>,
    pub stop: bool,
}

/// The key that quits the application.
pub const QUIT_KEY: char = 'q';

/// Whether a key event counts at all: presses and repeats only, and only
/// while the terminal has focus.
pub open spec fn key_counts(ctl: Control, release: bool) -> bool {
    !release && ctl.focused
}

/// The flags after one event: focus events set `focused`, an accepted quit
/// key sets `quitting`, nothing else writes.
pub open spec fn next_control(ctl: Control, ev: TermEvent) -> Control {
    match ev {
        TermEvent::FocusGained => Control { quitting: ctl.quitting, focused: true },
        TermEvent::FocusLost => Control { quitting: ctl.quitting, focused: false },
        TermEvent::Key { key, release } => {
            if key_counts(ctl, release) && key == TermKey::Char(QUIT_KEY) {
                Control { quitting: true, focused: ctl.focused }
            } else {
                ctl
            }
        },
        _ => ctl,
    }
}

/// The action the terminal listener sends for one event. A resize always
/// asks for a redraw; a counted quit key quits; another counted key asks
/// for a redraw only when the device listener is not the one that does so.
pub open spec fn terminal_action(args: Args, ctl: Control, ev: TermEvent) -> Option<Action> {
    match ev {
        TermEvent::Resize(_, _) => Some(Action::Render),
        TermEvent::Key { key, release } => {
            if !key_counts(ctl, release) {
                None
            } else if key == TermKey::Char(QUIT_KEY) {
                Some(Action::Quit)
            } else if !args.global {
                Some(Action::Render)
            } else {
                None
            }
        },
        _ => None,
    }
}

/// The step for one event: the listener stops once `quitting` is set.
pub open spec fn terminal_rule(args: Args, ctl: Control, ev: TermEvent) -> Step {
    Step { send: terminal_action(args, ctl, ev), stop: next_control(ctl, ev).quitting }
}

impl Step {
    /// Whether the listener reads another event, given whether the send of
    /// this step (if any) was delivered. A failed send ends the listener.
    pub fn keeps_listening(&self, delivered: bool) -> (r: bool)
        ensures
            r == (!self.stop && (self.send.is_none() || delivered)),
    {
        !self.stop && (self.send.is_none() || delivered)
    }
}

/// Applies the terminal listener's rule to one event: updates the observed
/// flags in place and returns the step to take.
pub fn terminal_step(args: Args, ctl: &mut Control, ev: &TermEvent) -> (r: Step)
    ensures
        *final(ctl) == next_control(*old(ctl), *ev),
        r == terminal_rule(args, *old(ctl), *ev),
{
    match ev {
        TermEvent::FocusGained => {
            ctl.focused = true;
            Step { send: None, stop: ctl.quitting }
        },
        TermEvent::FocusLost => {
            ctl.focused = false;
            Step { send: None, stop: ctl.quitting }
        },
        TermEvent::Resize(_, _) => Step { send: Some(Action::Render), stop: ctl.quitting },
        TermEvent::Key { key, release } => {
            if *release || !ctl.focused {
                Step { send: None, stop: ctl.quitting }
            } else {
                let is_quit = match key {
                    TermKey::Char(c) => *c == QUIT_KEY,
                    TermKey::Other => false,
                };
                if is_quit {
                    ctl.quitting = true;
                    Step { send: Some(Action::Quit), stop: true }
                } else if !args.global {
                    Step { send: Some(Action::Render), stop: ctl.quitting }
                } else {
                    Step { send: None, stop: ctl.quitting }
                }
            }
        },
        TermEvent::Other => Step { send: None, stop: ctl.quitting },
    }
}

/// The actions sent by a listener that starts from `ctl` and reads `evs` in
/// order, every send delivered, together with the flags it leaves; it reads
/// nothing after a step that stops it.
pub open spec fn terminal_run(args: Args, ctl: Control, evs: Seq<TermEvent>) -> (Control, Seq<Action>)
    decreases evs.len(),
{
    if evs.len() == 0 {
        (ctl, Seq::empty())
    } else {
        let step = terminal_rule(args, ctl, evs[0]);
        let next = next_control(ctl, evs[0]);
        let sent = match step.send {
            Some(a) => seq![a],
            None => Seq::empty(),
        };
        if step.stop {
            (next, sent)
        } else {
            let (last, rest) = terminal_run(args, next, evs.subrange(1, evs.len() as int));
            (last, sent + rest)
        }
    }
}

pub open spec fn is_key_release(ev: TermEvent) -> bool {
    ev matches TermEvent::Key { release: true, .. }
}

/// Key releases are filtered out before any decision: a listener that reads
/// only key releases sends nothing and leaves the flags unchanged.
pub proof fn lemma_releases_send_nothing(args: Args, ctl: Control, evs: Seq<TermEvent>)
    requires
        forall|i: int| 0 <= i < evs.len() ==> is_key_release(#[trigger] evs[i]),
    ensures
        terminal_run(args, ctl, evs) == (ctl, Seq::<Action>::empty()),
    decreases evs.len(),
{
    if evs.len() > 0 {
        let tail = evs.subrange(1, evs.len() as int);
        assert(is_key_release(evs[0]));
        assert forall|i: int| 0 <= i < tail.len() implies is_key_release(#[trigger] tail[i]) by {
            assert(tail[i] == evs[i + 1]);
        }
        lemma_releases_send_nothing(args, ctl, tail);
        assert(Seq::<Action>::empty() + Seq::<Action>::empty() =~= Seq::<Action>::empty());
    }
}

/// Pressing the quit key while the terminal has focus sets `quitting`, sends
/// `Quit` and stops the listener, whatever the configuration; the dispatcher
/// stops on receiving that `Quit`.
pub proof fn lemma_quit_key_quits(args: Args, ctl: Control)
    requires
        ctl.focused,
    ensures
        ({
            let ev = TermEvent::Key { key: TermKey::Char(QUIT_KEY), release: false };
            &&& next_control(ctl, ev).quitting
            &&& terminal_rule(args, ctl, ev) == (Step { send: Some(Action::Quit), stop: true })
            &&& terminal_run(args, ctl, seq![ev]).1 == seq![Action::Quit]
            &&& !dispatcher_continues(Some(Action::Quit))
        }),
{
    let ev = TermEvent::Key { key: TermKey::Char(QUIT_KEY), release: false };
    assert(terminal_run(args, ctl, seq![ev]).1 == seq![Action::Quit]);
}

} // verus!
