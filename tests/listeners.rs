use color_wall::{
    device_keeps_listening, should_redraw, terminal_step, Action, App, Args, Control, DeviceEvent,
    DeviceListener, SharedControl, Step, TermEvent, TermKey, QUIT_KEY,
};

fn terminal_only() -> Args {
    Args { global: false, only_focused: false }
}

fn global_focused() -> Args {
    Args { global: true, only_focused: true }
}

fn key(c: char) -> TermEvent {
    TermEvent::Key { key: TermKey::Char(c), release: false }
}

/// Runs the terminal listener over `evs` with every send delivered.
fn run_terminal(args: Args, ctl: &mut Control, evs: &[TermEvent]) -> Vec<Action> {
    let mut sent = Vec::new();
    for ev in evs {
        let step = terminal_step(args, ctl, ev);
        if let Some(a) = step.send {
            sent.push(a);
        }
        if !step.keeps_listening(true) {
            break;
        }
    }
    sent
}

#[test]
fn terminal_only_resize_key_quit() {
    let mut ctl = Control::initial();
    let evs = [TermEvent::Resize(80, 24), key('x'), key('q')];
    let sent = run_terminal(terminal_only(), &mut ctl, &evs);
    assert_eq!(sent, vec![Action::Render, Action::Render, Action::Quit]);
    assert!(ctl.quitting);
    let mut redraws = 0;
    for a in sent {
        if should_redraw(Some(a)) {
            redraws += 1;
        } else {
            break;
        }
    }
    assert_eq!(redraws, 2);
}

#[test]
fn key_releases_send_nothing() {
    for args in [terminal_only(), global_focused()] {
        let mut ctl = Control::initial();
        let evs = [
            TermEvent::Key { key: TermKey::Char('q'), release: true },
            TermEvent::Key { key: TermKey::Char('x'), release: true },
            TermEvent::Key { key: TermKey::Other, release: true },
        ];
        assert!(run_terminal(args, &mut ctl, &evs).is_empty());
        assert_eq!(ctl, Control::initial());
    }
}

#[test]
fn quit_key_quits_in_every_mode() {
    for args in [terminal_only(), global_focused(), Args { global: true, only_focused: false }] {
        let mut ctl = Control::initial();
        let step = terminal_step(args, &mut ctl, &key(QUIT_KEY));
        assert_eq!(step, Step { send: Some(Action::Quit), stop: true });
        assert!(ctl.quitting);
        assert!(!step.keeps_listening(true));
        assert!(!should_redraw(Some(Action::Quit)));
    }
}

#[test]
fn focus_events_toggle_focus_and_gate_keys() {
    let mut ctl = Control::initial();
    let step = terminal_step(terminal_only(), &mut ctl, &TermEvent::FocusLost);
    assert_eq!(step, Step { send: None, stop: false });
    assert!(!ctl.focused);
    let step = terminal_step(terminal_only(), &mut ctl, &key('q'));
    assert_eq!(step.send, None);
    assert!(!ctl.quitting);
    let step = terminal_step(terminal_only(), &mut ctl, &TermEvent::Resize(10, 10));
    assert_eq!(step.send, Some(Action::Render));
    terminal_step(terminal_only(), &mut ctl, &TermEvent::FocusGained);
    assert!(ctl.focused);
    let step = terminal_step(terminal_only(), &mut ctl, &key('a'));
    assert_eq!(step.send, Some(Action::Render));
}

#[test]
fn global_mode_terminal_keys_do_not_redraw() {
    let mut ctl = Control::initial();
    let step = terminal_step(global_focused(), &mut ctl, &key('a'));
    assert_eq!(step, Step { send: None, stop: false });
    let step = terminal_step(global_focused(), &mut ctl, &TermEvent::Resize(1, 1));
    assert_eq!(step.send, Some(Action::Render));
    let step = terminal_step(global_focused(), &mut ctl, &TermEvent::Other);
    assert_eq!(step, Step { send: None, stop: false });
}

#[test]
fn failed_send_ends_terminal_listener() {
    let step = Step { send: Some(Action::Render), stop: false };
    assert!(step.keeps_listening(true));
    assert!(!step.keeps_listening(false));
    let quiet = Step { send: None, stop: false };
    assert!(quiet.keeps_listening(false));
}

const PRESS: DeviceEvent = DeviceEvent::Key { pressed: true };
const RELEASE: DeviceEvent = DeviceEvent::Key { pressed: false };

#[test]
fn device_focus_gate_then_resume() {
    let mut dev = DeviceListener::new();
    let out = dev.on_batch(global_focused(), false, &vec![PRESS]);
    assert!(out.is_empty());
    assert_eq!(dev, DeviceListener::new());
    let out = dev.on_batch(global_focused(), true, &vec![PRESS]);
    assert_eq!(out, vec![Action::Render]);
}

#[test]
fn device_release_while_unfocused_then_press() {
    let args = global_focused();
    let mut dev = DeviceListener::new();
    assert_eq!(dev.on_batch(args, true, &vec![PRESS]), vec![Action::Render]);
    assert!(dev.on_batch(args, false, &vec![RELEASE]).is_empty());
    assert_eq!(dev.on_batch(args, true, &vec![PRESS]), vec![Action::Render]);
}

#[test]
fn device_without_gating_ignores_focus() {
    let mut dev = DeviceListener::new();
    let args = Args { global: true, only_focused: false };
    let out = dev.on_batch(args, false, &vec![DeviceEvent::Other, PRESS]);
    assert_eq!(out, vec![Action::Render]);
    assert!(dev.key_held);
    let out = dev.on_batch(args, false, &vec![PRESS]);
    assert_eq!(out, vec![Action::Render]);
}

#[test]
fn device_press_release_gives_one_redraw() {
    let mut dev = DeviceListener::new();
    let args = global_focused();
    assert_eq!(dev.on_batch(args, true, &vec![PRESS]), vec![Action::Render]);
    assert!(dev.key_held);
    assert!(dev.on_batch(args, true, &vec![RELEASE]).is_empty());
    assert!(!dev.key_held);
}

#[test]
fn device_one_redraw_per_press() {
    let mut dev = DeviceListener::new();
    let evs = vec![PRESS, PRESS, RELEASE, DeviceEvent::Other, PRESS, RELEASE, RELEASE];
    let out = dev.on_batch(global_focused(), true, &evs);
    assert_eq!(out, vec![Action::Render; 3]);
    assert!(!dev.key_held);
}

#[test]
fn device_releases_alone_ask_nothing() {
    let mut dev = DeviceListener::new();
    let out = dev.on_batch(global_focused(), true, &vec![RELEASE; 4]);
    assert!(out.is_empty());
}

#[test]
fn device_empty_batch() {
    let mut dev = DeviceListener::new();
    assert!(dev.on_batch(global_focused(), true, &Vec::new()).is_empty());
    assert_eq!(dev, DeviceListener::new());
}

#[test]
fn device_listener_stop_rule() {
    assert!(device_keeps_listening(false, true));
    assert!(!device_keeps_listening(true, true));
    assert!(!device_keeps_listening(false, false));
}

#[test]
fn dispatcher_stop_rule() {
    assert!(should_redraw(Some(Action::Render)));
    assert!(!should_redraw(Some(Action::Quit)));
    assert!(!should_redraw(None));
}

#[test]
fn app_channel_holds_one_action() {
    let (mut app, tx) = App::new(global_focused());
    assert_eq!(app.capacity(), Some(1));
    assert_eq!(app.args, global_focused());
    tx.send(Action::Render).unwrap();
    assert!(tx.try_send(Action::Quit).is_err());
    assert_eq!(app.next(), Ok(Action::Render));
}

#[test]
fn app_channel_closes_with_its_senders() {
    let (mut app, tx) = App::new(terminal_only());
    let listener = tx.clone();
    drop(tx);
    listener.send(Action::Quit).unwrap();
    drop(listener);
    assert_eq!(app.next(), Ok(Action::Quit));
    assert!(app.next().is_err());
    assert!(!should_redraw(app.next().ok()));
}

#[test]
fn shared_control_round_trip() {
    let shared = SharedControl::new();
    assert_eq!(shared.snapshot(), Control::initial());
    let after = Control { quitting: true, focused: false };
    shared.publish(Control::initial(), after);
    assert_eq!(shared.snapshot(), after);
}

#[test]
fn global_focus_lost_then_gained_scenario() {
    let args = global_focused();
    let mut ctl = Control::initial();
    let mut dev = DeviceListener::new();
    terminal_step(args, &mut ctl, &TermEvent::FocusLost);
    let out = dev.on_batch(args, ctl.focused, &vec![PRESS]);
    assert!(out.is_empty());
    terminal_step(args, &mut ctl, &TermEvent::FocusGained);
    let out = dev.on_batch(args, ctl.focused, &vec![PRESS]);
    assert_eq!(out, vec![Action::Render]);
}
