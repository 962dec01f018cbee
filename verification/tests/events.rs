use discord_rpc::registry::Registry;
use discord_rpc::trampoline::{
    evh_disconnected, evh_errored, evh_join, evh_joinreq, evh_ready, evh_spectate,
};
use discord_rpc::{Event, JoinRequest, Phase, Polled, Reply, RichPresence};

fn session(registry: &mut Registry) -> RichPresence {
    RichPresence::init("123456", false, None, registry)
}

#[test]
fn join_request_comes_out_of_exactly_one_poll() {
    let mut registry = Registry::new();
    let rp = session(&mut registry);
    evh_joinreq(&mut registry, b"u1", b"Bob", b"a.png");
    let first = rp.try_recv_event(&mut registry);
    assert_eq!(
        first,
        Polled::Event(Event::JoinRequest(JoinRequest {
            id: String::from("u1"),
            name: String::from("Bob"),
            avatar: String::from("a.png"),
        }))
    );
    assert_eq!(rp.try_recv_event(&mut registry), Polled::RunCallbacks);
    assert_eq!(rp.try_recv_event(&mut registry), Polled::RunCallbacks);
}

#[test]
fn events_come_out_in_the_order_fired() {
    let mut registry = Registry::new();
    let rp = session(&mut registry);
    evh_ready(&mut registry);
    evh_join(&mut registry, b"join-secret");
    evh_spectate(&mut registry, b"watch-secret");
    evh_errored(&mut registry, 4000, b"bad frame");
    evh_joinreq(&mut registry, b"u1", b"Bob", b"a.png");
    evh_disconnected(&mut registry, -1, b"closed");
    evh_ready(&mut registry);
    assert_eq!(registry.pending_len(rp.token()), 7);
    let expected = vec![
        Event::Ready,
        Event::JoinGame(String::from("join-secret")),
        Event::SpectateGame(String::from("watch-secret")),
        Event::Errored(4000, String::from("bad frame")),
        Event::JoinRequest(JoinRequest {
            id: String::from("u1"),
            name: String::from("Bob"),
            avatar: String::from("a.png"),
        }),
        Event::Disconnected(-1, String::from("closed")),
        Event::Ready,
    ];
    let mut left = expected.len();
    for event in expected {
        assert_eq!(rp.try_recv_event(&mut registry).event(), Some(event));
        left -= 1;
        assert_eq!(registry.pending_len(rp.token()), left);
    }
    assert_eq!(rp.try_recv_event(&mut registry), Polled::RunCallbacks);
    assert_eq!(registry.pending_len(rp.token()), 0);
}

#[test]
fn poll_on_an_empty_queue_asks_for_the_callbacks() {
    let mut registry = Registry::new();
    let rp = session(&mut registry);
    let polled = rp.try_recv_event(&mut registry);
    assert_eq!(polled, Polled::RunCallbacks);
    assert_eq!(polled.event(), None);
    // What the callbacks enqueue is reported by the polls that follow.
    evh_ready(&mut registry);
    evh_ready(&mut registry);
    assert_eq!(rp.try_recv_event(&mut registry).event(), Some(Event::Ready));
    assert_eq!(registry.pending_len(rp.token()), 1);
    assert_eq!(rp.try_recv_event(&mut registry).event(), Some(Event::Ready));
    assert_eq!(rp.try_recv_event(&mut registry).event(), None);
}

#[test]
fn events_fired_between_polls_keep_their_order() {
    let mut registry = Registry::new();
    let rp = session(&mut registry);
    evh_join(&mut registry, b"a");
    evh_join(&mut registry, b"b");
    assert_eq!(
        rp.try_recv_event(&mut registry),
        Polled::Event(Event::JoinGame(String::from("a")))
    );
    evh_join(&mut registry, b"c");
    assert_eq!(
        rp.try_recv_event(&mut registry),
        Polled::Event(Event::JoinGame(String::from("b")))
    );
    assert_eq!(
        rp.try_recv_event(&mut registry),
        Polled::Event(Event::JoinGame(String::from("c")))
    );
    assert_eq!(rp.try_recv_event(&mut registry), Polled::RunCallbacks);
}

#[test]
fn callback_text_is_read_as_nul_closed_and_repaired() {
    let mut registry = Registry::new();
    let rp = session(&mut registry);
    evh_disconnected(&mut registry, 7, b"gone\0ignored");
    evh_errored(&mut registry, i32::MIN, b"bad \xff byte");
    evh_spectate(&mut registry, b"");
    assert_eq!(
        rp.try_recv_event(&mut registry).event(),
        Some(Event::Disconnected(7, String::from("gone")))
    );
    assert_eq!(
        rp.try_recv_event(&mut registry).event(),
        Some(Event::Errored(i32::MIN, String::from("bad \u{fffd} byte")))
    );
    assert_eq!(
        rp.try_recv_event(&mut registry).event(),
        Some(Event::SpectateGame(String::new()))
    );
}

#[test]
fn callbacks_without_a_sink_do_nothing() {
    let mut registry = Registry::new();
    assert!(!registry.is_installed());
    evh_ready(&mut registry);
    evh_disconnected(&mut registry, 1, b"x");
    evh_errored(&mut registry, 1, b"x");
    evh_join(&mut registry, b"x");
    evh_spectate(&mut registry, b"x");
    evh_joinreq(&mut registry, b"x", b"y", b"z");
    assert!(!registry.is_installed());
    let rp = session(&mut registry);
    assert!(registry.is_installed());
    assert_eq!(registry.pending_len(rp.token()), 0);
    assert_eq!(rp.try_recv_event(&mut registry), Polled::RunCallbacks);
}

#[test]
fn shutdown_leaves_no_registration() {
    let mut registry = Registry::new();
    let mut rp = session(&mut registry);
    evh_ready(&mut registry);
    assert!(registry.is_installed());
    assert!(rp.shutdown(&mut registry));
    assert_eq!(rp.phase(), Phase::ShutDown);
    assert!(!registry.is_installed());
    assert!(!registry.is_listening(rp.token()));
    assert_eq!(registry.pending_len(rp.token()), 0);
    // The next session starts on a clean registry, with a queue of its own.
    let next = session(&mut registry);
    assert!(registry.is_listening(next.token()));
    assert!(!registry.is_listening(rp.token()));
    assert_eq!(next.try_recv_event(&mut registry), Polled::RunCallbacks);
}

#[test]
fn shut_down_session_makes_no_native_call() {
    let mut registry = Registry::new();
    let mut rp = session(&mut registry);
    rp.set_status("Exploring");
    assert!(rp.shutdown(&mut registry));
    assert!(!rp.shutdown(&mut registry));
    assert_eq!(rp.try_recv_event(&mut registry), Polled::Idle);
    assert_eq!(rp.send_update(), None);
    assert_eq!(rp.send_reply("u1", Reply::Yes), None);
    rp.set_status("Still here");
    assert_eq!(rp.send_update(), None);
    assert_eq!(rp.phase(), Phase::ShutDown);
}

#[test]
fn second_shutdown_leaves_a_later_session_alone() {
    let mut registry = Registry::new();
    let mut first = session(&mut registry);
    assert!(first.shutdown(&mut registry));
    let second = session(&mut registry);
    assert!(!first.shutdown(&mut registry));
    assert!(registry.is_listening(second.token()));
    evh_ready(&mut registry);
    assert_eq!(second.try_recv_event(&mut registry).event(), Some(Event::Ready));
}

#[test]
fn second_session_takes_the_sink_and_not_the_events() {
    let mut registry = Registry::new();
    let first = session(&mut registry);
    evh_ready(&mut registry);
    evh_errored(&mut registry, 3, b"early");
    let second = RichPresence::init("654321", true, Some("steam"), &mut registry);
    assert_ne!(first.token(), second.token());
    assert!(registry.is_listening(second.token()));
    assert!(!registry.is_listening(first.token()));
    // What waited for the first session still waits for it.
    assert_eq!(registry.pending_len(first.token()), 2);
    assert_eq!(registry.pending_len(second.token()), 0);
    // What is fired from now on goes to the second alone.
    evh_join(&mut registry, b"s");
    assert_eq!(registry.pending_len(first.token()), 2);
    assert_eq!(registry.pending_len(second.token()), 1);
    assert_eq!(first.try_recv_event(&mut registry), Polled::Event(Event::Ready));
    assert_eq!(
        second.try_recv_event(&mut registry),
        Polled::Event(Event::JoinGame(String::from("s")))
    );
    assert_eq!(
        first.try_recv_event(&mut registry),
        Polled::Event(Event::Errored(3, String::from("early")))
    );
    assert_eq!(second.try_recv_event(&mut registry), Polled::RunCallbacks);
    assert_eq!(first.try_recv_event(&mut registry), Polled::RunCallbacks);
}

#[test]
fn active_session_without_the_sink_still_runs_the_callbacks() {
    let mut registry = Registry::new();
    let first = session(&mut registry);
    let second = session(&mut registry);
    // Replaced by a later session.
    assert!(!registry.is_listening(first.token()));
    assert_eq!(first.try_recv_event(&mut registry), Polled::RunCallbacks);
    assert_eq!(first.phase(), Phase::Active);
    // Cleared with nothing installed since.
    registry.clear();
    assert!(!registry.is_installed());
    assert_eq!(first.try_recv_event(&mut registry), Polled::RunCallbacks);
    assert_eq!(second.try_recv_event(&mut registry), Polled::RunCallbacks);
}

#[test]
fn shutdown_of_one_session_keeps_what_waits_for_another() {
    let mut registry = Registry::new();
    let mut first = session(&mut registry);
    evh_ready(&mut registry);
    let second = session(&mut registry);
    evh_join(&mut registry, b"a");
    evh_join(&mut registry, b"b");
    assert!(first.shutdown(&mut registry));
    // The sink is gone, whoever it was installed for.
    assert!(!registry.is_installed());
    assert_eq!(registry.pending_len(first.token()), 0);
    assert_eq!(registry.pending_len(second.token()), 2);
    evh_join(&mut registry, b"dropped");
    assert_eq!(registry.pending_len(second.token()), 2);
    assert_eq!(first.try_recv_event(&mut registry), Polled::Idle);
    assert_eq!(
        second.try_recv_event(&mut registry),
        Polled::Event(Event::JoinGame(String::from("a")))
    );
    assert_eq!(
        second.try_recv_event(&mut registry),
        Polled::Event(Event::JoinGame(String::from("b")))
    );
    assert_eq!(second.try_recv_event(&mut registry), Polled::RunCallbacks);
}

#[test]
fn registry_install_and_clear() {
    let mut registry = Registry::new();
    let first = registry.install();
    assert!(registry.is_listening(first));
    registry.dispatch(Event::Ready);
    assert_eq!(registry.pending_len(first), 1);
    let second = registry.install();
    assert_ne!(first, second);
    assert!(!registry.is_listening(first));
    assert!(registry.is_listening(second));
    assert_eq!(registry.pending_len(first), 1);
    assert_eq!(registry.pending_len(second), 0);
    registry.dispatch(Event::JoinGame(String::from("x")));
    assert_eq!(registry.pending_len(first), 1);
    assert_eq!(registry.take(first), Some(Event::Ready));
    assert_eq!(registry.take(first), None);
    assert_eq!(registry.take(second), Some(Event::JoinGame(String::from("x"))));
    assert_eq!(registry.take(second), None);
    registry.dispatch(Event::Ready);
    registry.clear();
    assert!(!registry.is_installed());
    assert_eq!(registry.pending_len(second), 1);
    registry.dispatch(Event::Ready);
    assert_eq!(registry.pending_len(second), 1);
    assert_eq!(registry.take(second), Some(Event::Ready));
    assert_eq!(registry.take(second), None);
}

#[test]
fn registry_release_gives_up_one_queue() {
    let mut registry = Registry::new();
    let first = registry.install();
    registry.dispatch(Event::Ready);
    let second = registry.install();
    registry.dispatch(Event::Ready);
    registry.dispatch(Event::Ready);
    registry.release(first);
    assert!(registry.is_listening(second));
    assert_eq!(registry.pending_len(first), 0);
    assert_eq!(registry.take(first), None);
    assert_eq!(registry.pending_len(second), 2);
    registry.release(second);
    assert!(!registry.is_installed());
    assert_eq!(registry.pending_len(second), 0);
    assert_eq!(registry.take(second), None);
    // A token that was never handed out has nothing to give up.
    registry.release(77);
    assert!(!registry.is_installed());
}
