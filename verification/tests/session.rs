use darknode::net::connect_loop::{ConnectAction, ConnectEvent, ConnectLoop, Phase};
use darknode::net::manual_session::{ManualSession, SESSION_MANUAL};
use darknode::net::settings::Settings;

type Event = ConnectEvent<u8, &'static str>;
type Action = ConnectAction<&'static str>;
type Connection = ConnectLoop<u8>;

const ADDR: &str = "tcp+tls://peer.example:26661";

fn settings(limit: usize) -> Settings {
    Settings { manual_attempt_limit: limit, outbound_connect_timeout: 10 }
}

fn play(mut connection: Connection, events: Vec<Event>) -> (Connection, Vec<Action>) {
    let mut actions = Vec::new();
    for event in events {
        let (next, action) = ManualSession::<u32>::channel_connect_loop(connection, event);
        connection = next;
        actions.push(action);
    }
    (connection, actions)
}

fn dial(limit: usize, events: Vec<Event>) -> (Connection, Vec<Action>) {
    play(ConnectLoop::new(ADDR.to_string(), &settings(limit)), events)
}

fn unreachable_peer(times: usize) -> Vec<Event> {
    let mut events = vec![Event::Done, Event::Done];
    for _ in 0..times {
        events.push(Event::ConnectFailed);
        events.push(Event::Done);
        events.push(Event::Done);
    }
    events
}

fn number_of(actions: &[Action], kind: fn(&Action) -> bool) -> usize {
    actions.iter().filter(|action| kind(action)).count()
}

#[test]
fn slots_are_stopped_in_order() {
    let mut session = ManualSession::new();
    assert!(session.stop().is_empty());
    for task in [7u32, 3, 9] {
        let connection: Connection = session.connect(ADDR.to_string(), &settings(2), task);
        assert_eq!(connection.addr(), ADDR);
        assert_eq!(connection.attempts(), 2);
        assert_eq!(connection.tried_attempts(), 0);
        assert_eq!(connection.phase(), Phase::Idle);
    }
    assert_eq!(session.stop(), &vec![7, 3, 9]);
    assert_eq!(session.stop(), &vec![7, 3, 9]);
    assert_eq!(session.type_id(), SESSION_MANUAL);
}

#[test]
fn answering_peer_is_registered_and_awaited() {
    let mut events = unreachable_peer(0);
    events.push(Event::Connected(5));
    for _ in 0..5 {
        events.push(Event::Done);
    }
    let (connection, actions) = dial(1, events);
    assert_eq!(
        actions,
        vec![
            Action::AddPending,
            Action::Connect { attempt: 1 },
            Action::SubscribeStop,
            Action::RegisterChannel,
            Action::RemovePending,
            Action::NotifyConnected,
            Action::AwaitStop,
            Action::Return(Ok(())),
        ]
    );
    assert_eq!(connection.phase(), Phase::Finished);
    assert_eq!(connection.addr(), ADDR);
}

#[test]
fn limit_of_attempts_is_kept() {
    let (connection, actions) = dial(2, unreachable_peer(2));
    assert_eq!(
        actions,
        vec![
            Action::AddPending,
            Action::Connect { attempt: 1 },
            Action::NotifyFailure,
            Action::Sleep { seconds: 10 },
            Action::Connect { attempt: 2 },
            Action::NotifyFailure,
            Action::RemovePending,
            Action::Return(Ok(())),
        ]
    );
    assert_eq!(connection.tried_attempts(), 2);
    assert_eq!(connection.channel(), None);
}

#[test]
fn no_limit_means_no_end() {
    let (connection, actions) = dial(0, unreachable_peer(50));
    assert_eq!(connection.phase(), Phase::Connecting);
    assert_eq!(connection.tried_attempts(), 51);
    assert_eq!(actions.last(), Some(&Action::Connect { attempt: 51 }));
    assert_eq!(number_of(&actions, |a| matches!(a, Action::NotifyFailure)), 50);
    assert_eq!(number_of(&actions, |a| matches!(a, Action::Sleep { .. })), 50);
    assert_eq!(number_of(&actions, |a| matches!(a, Action::RemovePending)), 0);
}

#[test]
fn late_answer_ends_the_attempts() {
    let mut events = unreachable_peer(3);
    events.push(Event::Connected(5));
    for _ in 0..5 {
        events.push(Event::Done);
    }
    let (connection, actions) = dial(5, events);
    assert_eq!(connection.phase(), Phase::Finished);
    assert_eq!(number_of(&actions, |a| matches!(a, Action::Connect { .. })), 4);
    assert_eq!(number_of(&actions, |a| matches!(a, Action::AddPending)), 1);
    assert_eq!(number_of(&actions, |a| matches!(a, Action::RemovePending)), 1);
    assert_eq!(number_of(&actions, |a| matches!(a, Action::NotifyConnected)), 1);
    assert_eq!(actions.last(), Some(&Action::Return(Ok(()))));
}

#[test]
fn failed_registration_leaves_the_peer_pending() {
    let mut events = unreachable_peer(0);
    events.push(Event::Connected(5));
    events.push(Event::Done);
    events.push(Event::RegisterFailed("no handshake"));
    let (connection, actions) = dial(4, events);
    assert_eq!(connection.phase(), Phase::Finished);
    assert_eq!(actions.last(), Some(&Action::Return(Err("no handshake"))));
    assert_eq!(number_of(&actions, |a| matches!(a, Action::RemovePending)), 0);
}

#[test]
fn waits_and_removal_fit_every_ending() {
    let mut answered = unreachable_peer(2);
    answered.push(Event::Connected(5));
    answered.extend(vec![Event::Done, Event::Done, Event::Done, Event::Done, Event::Done]);
    let mut unregistered = unreachable_peer(1);
    unregistered.extend(vec![Event::Connected(5), Event::Done, Event::RegisterFailed("full")]);
    for (events, attempts) in [(answered, 3), (unregistered, 2), (unreachable_peer(4), 4)] {
        let (connection, actions) = dial(4, events);
        assert_eq!(connection.phase(), Phase::Finished);
        let sleeps = number_of(&actions, |a| matches!(a, Action::Sleep { .. }));
        let connects = number_of(&actions, |a| matches!(a, Action::Connect { .. }));
        assert_eq!(connects, attempts);
        assert_eq!(sleeps + 1, connects);
        if let Some(at) = actions.iter().position(|a| matches!(a, Action::RemovePending)) {
            assert!(matches!(actions[at - 1], Action::RegisterChannel | Action::NotifyFailure));
            assert_eq!(number_of(&actions[at..], |a| matches!(a, Action::Connect { .. })), 0);
        }
    }
}

#[test]
fn one_channel_is_kept_to_the_end() {
    let (mut connection, _) = dial(4, unreachable_peer(1));
    assert_eq!(connection.channel(), None);
    let mut event = Event::Connected(7);
    for action in [
        Action::SubscribeStop,
        Action::RegisterChannel,
        Action::RemovePending,
        Action::NotifyConnected,
        Action::AwaitStop,
        Action::Return(Ok(())),
    ] {
        let (next, due) = ManualSession::<u32>::channel_connect_loop(connection, event);
        assert_eq!(due, action);
        assert_eq!(next.channel(), Some(&7));
        connection = next;
        event = Event::Done;
    }
}
