use crate::action::Action;
use crate::config::Args;
use vstd::prelude::*;

verus! {

/// An event drained from the raw keyboard devices, as far as the device
/// listener tells events apart.
#[derive(Clone, Copy, Debug, PartialEq, Eq, Structural)]
pub enum DeviceEvent {
    /// A keyboard key transition: `pressed` for a key going down, unset for
    /// a key coming up.
    Key { pressed: bool },
    /// Any other hardware event (pointer, touch, device added).
    Other,
}

/// The device listener's own state: whether the last key transition it
/// handled was a press that no release has followed yet.
#[derive(Clone, Copy, Debug, PartialEq, Eq, Structural)]
pub struct DeviceListener {
    pub key_held: bool,
}

/// One key transition: a press asks for one redraw and marks a key held, also
/// right after another press; a release clears the mark and asks for nothing.
pub open spec fn key_transition(pressed: bool) -> (bool, Option<Action>) {
    if pressed {
        (true, Some(Action::Render))
    } else {
        (false, None)
    }
}

/// The listener state and the actions after the events `evs`, handled in
/// order from `key_held`.
pub open spec fn handle_events(key_held: bool, evs: Seq<DeviceEvent>) -> (bool, Seq<Action>)
    decreases evs.len(),
{
    if evs.len() == 0 {
        (key_held, Seq::empty())
    } else {
        let (h, acts) = handle_events(key_held, evs.drop_last());
        match evs.last() {
            DeviceEvent::Key { pressed } => {
                let (h2, a) = key_transition(pressed);
                match a {
                    Some(x) => (h2, acts.push(x)),
                    None => (h2, acts),
                }
            },
            DeviceEvent::Other => (h, acts),
        }
    }
}

/// Whether a drained batch is let through: with focus gating on, only while
/// the terminal has focus.
pub open spec fn batch_admitted(args: Args, focused: bool) -> bool {
    !args.only_focused || focused
}

/// The listener state and the actions after one drained batch. A batch that
/// is not admitted is dropped whole and leaves the state as it was.
pub open spec fn handle_batch(state: DeviceListener, args: Args, focused: bool, evs: Seq<DeviceEvent>) -> (DeviceListener, Seq<Action>) {
    if batch_admitted(args, focused) {
        let (h, acts) = handle_events(state.key_held, evs);
        (DeviceListener { key_held: h }, acts)
    } else {
        (state, Seq::empty())
    }
}

/// The number of key presses among `evs`.
pub open spec fn press_count(evs: Seq<DeviceEvent>) -> nat
    decreases evs.len(),
{
    if evs.len() == 0 {
        0
    } else {
        press_count(evs.drop_last()) + if evs.last() == (DeviceEvent::Key { pressed: true }) {
            1nat
        } else {
            0nat
        }
    }
}

impl DeviceListener {
    /// A listener that has seen no key held.
    pub fn new() -> (r: DeviceListener)
        ensures
            !r.key_held,
    {
        DeviceListener { key_held: false }
    }

    /// Handles one drained batch: returns the actions to send, in order, and
    /// advances the listener's state.
    pub fn on_batch(&mut self, args: Args, focused: bool, events: &Vec<DeviceEvent>) -> (r: Vec<Action>)
        ensures
            (*final(self), r@) == handle_batch(*old(self), args, focused, events@),
    {
        let mut out: Vec<Action> = Vec::new();
        if args.only_focused && !focused {
            return out;
        }
        let ghost start = self.key_held;
        let mut i: usize = 0;
        while i < events.len()
            invariant
                i <= events@.len(),
                (self.key_held, out@) == handle_events(start, events@.take(i as int)),
            decreases events@.len() - i,
        {
            proof {
                assert(events@.take(i as int + 1).drop_last() =~= events@.take(i as int));
            }
            match events[i] {
                DeviceEvent::Key { pressed } => {
                    if pressed {
                        out.push(Action::Render);
                    }
                    self.key_held = pressed;
                },
                DeviceEvent::Other => {},
            }
            i = i + 1;
        }
        proof {
            assert(events@.take(events@.len() as int) =~= events@);
        }
        out
    }
}

/// Whether the device listener waits for another batch: it stops once
/// `quitting` is set or waiting for the devices or draining them failed
/// (`source_ok` unset).
pub fn device_keeps_listening(quitting: bool, source_ok: bool) -> (r: bool)
    ensures
        r == (!quitting && source_ok),
{
    !quitting && source_ok
}

/// With global capture and focus gating on, no redraw is asked for from the
/// devices while the terminal is unfocused, and the listener's state is
/// kept; once focus is back, the next key press asks for a redraw again,
/// whatever was dropped meanwhile.
pub proof fn lemma_focus_gates_device(args: Args, state: DeviceListener, evs: Seq<DeviceEvent>)
    requires
        args.global,
        args.only_focused,
    ensures
        handle_batch(state, args, false, evs) == (state, Seq::<Action>::empty()),
        handle_batch(handle_batch(state, args, false, evs).0, args, true, seq![DeviceEvent::Key { pressed: true }]).1
            == seq![Action::Render],
{
    let one = seq![DeviceEvent::Key { pressed: true }];
    assert(one.drop_last() =~= Seq::<DeviceEvent>::empty());
    assert(one.last() == DeviceEvent::Key { pressed: true });
    assert(handle_events(state.key_held, one.drop_last()) == (state.key_held, Seq::<Action>::empty()));
    assert(Seq::<Action>::empty().push(Action::Render) =~= seq![Action::Render]);
}

/// Without focus gating, focus plays no part: a batch is handled the same
/// whether the terminal has focus or not.
pub proof fn lemma_no_gating_without_only_focused(args: Args, state: DeviceListener, evs: Seq<DeviceEvent>)
    requires
        !args.only_focused,
    ensures
        handle_batch(state, args, false, evs) == handle_batch(state, args, true, evs),
{
}

/// Exactly one redraw per key press, in any order of presses and releases
/// and also for a press that follows a press; a release or any other event
/// asks for nothing. Every action asked for is a redraw.
pub proof fn lemma_one_redraw_per_press(key_held: bool, evs: Seq<DeviceEvent>)
    ensures
        ({
            let (h, acts) = handle_events(key_held, evs);
            &&& acts.len() == press_count(evs)
            &&& forall|i: int| 0 <= i < acts.len() ==> #[trigger] acts[i] == Action::Render
        }),
    decreases evs.len(),
{
    if evs.len() > 0 {
        lemma_one_redraw_per_press(key_held, evs.drop_last());
        let (h, acts) = handle_events(key_held, evs.drop_last());
        if evs.last() == (DeviceEvent::Key { pressed: true }) {
            let acts2 = acts.push(Action::Render);
            assert forall|i: int| 0 <= i < acts2.len() implies #[trigger] acts2[i] == Action::Render by {
                if i < acts.len() {
                    assert(acts2[i] == acts[i]);
                }
            }
        }
    }
}

} // verus!
