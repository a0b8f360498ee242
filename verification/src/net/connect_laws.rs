//! What holds of every course that a manual connection can take.
use vstd::prelude::*;

use crate::net::connect_loop::{loop_start, ConnectAction, ConnectEvent, LoopView, Phase};
use crate::net::settings::Settings;

verus! {

/// Where a connection stands after `events`, and all actions that it asked for
/// on the way.
pub open spec fn course<C, E>(start: LoopView<C>, events: Seq<ConnectEvent<C, E>>) -> (
    LoopView<C>,
    Seq<ConnectAction<E>>,
)
    decreases events.len(),
{
    if events.len() == 0 {
        (start, Seq::empty())
    } else {
        let before = course(start, events.drop_last());
        let (after, action) = before.0.step(events.last());
        (after, before.1.push(action))
    }
}

/// Whether each of `events` can come of the action before it.
pub open spec fn possible<C, E>(start: LoopView<C>, events: Seq<ConnectEvent<C, E>>) -> bool
    decreases events.len(),
{
    events.len() > 0 ==> {
        &&& possible(start, events.drop_last())
        &&& course(start, events.drop_last()).0.expects(events.last())
    }
}

/// How many of `actions` satisfy `kind`.
pub open spec fn count<E>(
    actions: Seq<ConnectAction<E>>,
    kind: spec_fn(ConnectAction<E>) -> bool,
) -> nat
    decreases actions.len(),
{
    if actions.len() == 0 {
        0
    } else {
        count(actions.drop_last(), kind) + if kind(actions.last()) {
            1nat
        } else {
            0
        }
    }
}

pub open spec fn is_add_pending<E>() -> spec_fn(ConnectAction<E>) -> bool {
    |action: ConnectAction<E>| action is AddPending
}

pub open spec fn is_remove_pending<E>() -> spec_fn(ConnectAction<E>) -> bool {
    |action: ConnectAction<E>| action is RemovePending
}

pub open spec fn is_connect<E>() -> spec_fn(ConnectAction<E>) -> bool {
    |action: ConnectAction<E>| action is Connect
}

pub open spec fn is_notify_failure<E>() -> spec_fn(ConnectAction<E>) -> bool {
    |action: ConnectAction<E>| action is NotifyFailure
}

pub open spec fn is_notify_connected<E>() -> spec_fn(ConnectAction<E>) -> bool {
    |action: ConnectAction<E>| action is NotifyConnected
}

pub open spec fn is_sleep<E>() -> spec_fn(ConnectAction<E>) -> bool {
    |action: ConnectAction<E>| action is Sleep
}

/// Whether an action is about the connection's channel.
pub open spec fn is_about_channel<E>(action: ConnectAction<E>) -> bool {
    action is SubscribeStop || action is RegisterChannel || action is NotifyConnected
        || action is AwaitStop
}

/// How many of `events` say that the peer could not be reached.
pub open spec fn failures<C, E>(events: Seq<ConnectEvent<C, E>>) -> nat
    decreases events.len(),
{
    if events.len() == 0 {
        0
    } else {
        failures(events.drop_last()) + if events.last() is ConnectFailed {
            1nat
        } else {
            0
        }
    }
}

/// The channel on which the peer answered last, if it answered.
pub open spec fn answered_on<C, E>(events: Seq<ConnectEvent<C, E>>) -> Option<C>
    decreases events.len(),
{
    if events.len() == 0 {
        None
    } else {
        match events.last() {
            ConnectEvent::Connected(channel) => Some(channel),
            _ => answered_on(events.drop_last()),
        }
    }
}

/// The numbers stay consistent on every step.
pub proof fn step_keeps_well_formed<C, E>(connection: LoopView<C>, event: ConnectEvent<C, E>)
    requires
        connection.well_formed(),
        connection.expects(event),
    ensures
        connection.step(event).0.well_formed(),
        connection.step(event).0.attempts == connection.attempts,
        connection.step(event).0.timeout == connection.timeout,
{
}

/// What the phase says about the actions so far.
spec fn tallied<C, E>(connection: LoopView<C>, actions: Seq<ConnectAction<E>>, failed: nat) -> bool {
    let added = count(actions, is_add_pending());
    let removed = count(actions, is_remove_pending());
    let told_failed = count(actions, is_notify_failure());
    let told_connected = count(actions, is_notify_connected());
    let slept = count(actions, is_sleep());
    let phase = connection.phase;
    &&& connection.well_formed()
    &&& added == if phase is Idle {
        0nat
    } else {
        1
    }
    &&& removed <= 1
    &&& (phase is ClearingPending || phase is NotifyingConnected || phase is Open
        || phase is Suspending) ==> removed == 1
    &&& (phase is Idle || phase is AddingPending || phase is Connecting || phase is SubscribingStop
        || phase is Registering || phase is NotifyingFailure || phase is Sleeping) ==> removed == 0
    &&& connection.tried == count(actions, is_connect())
    &&& told_failed == failed
    &&& connection.tried == failed + (if phase is Connecting || connection.connected() {
        1nat
    } else {
        0
    }) || phase is Finished
    &&& connection.tried == failed || connection.tried == failed + 1
    &&& told_connected == (if phase is NotifyingConnected || phase is Open {
        1nat
    } else {
        0
    }) || phase is Finished
    &&& told_connected <= 1
    &&& slept == (if phase is NotifyingFailure || phase is Suspending {
        (failed - 1) as nat
    } else {
        failed
    }) || phase is Finished
    &&& phase is Finished ==> {
        &&& actions.len() > 0
        &&& actions.last() is Return
        &&& removed == if actions.last()->Return_0 is Ok {
            1nat
        } else {
            0
        }
        &&& told_connected == 1 ==> connection.tried == failed + 1 && slept == failed
        &&& told_connected == 0 && actions.last()->Return_0 is Ok ==> connection.attempts > 0
            && failed == connection.attempts && slept == failed - 1
        &&& actions.last()->Return_0 is Err ==> told_connected == 0 && connection.tried == failed
            + 1 && slept == failed
    }
}

proof fn course_tallied<C, E>(settings: Settings, events: Seq<ConnectEvent<C, E>>)
    requires
        possible(loop_start(settings), events),
    ensures
        ({
            let (connection, actions) = course(loop_start(settings), events);
            &&& tallied(connection, actions, failures(events))
            &&& connection.attempts == settings.manual_attempt_limit
        }),
    decreases events.len(),
{
    if events.len() > 0 {
        let start = loop_start::<C>(settings);
        course_tallied(settings, events.drop_last());
        let before = course(start, events.drop_last());
        let after = course(start, events);
        assert(after.1.drop_last() == before.1);
    }
}

/// A peer is pending for exactly as long as its connection is being
/// established: it is added once, first, and removed once on every course that
/// ends well, directly after its channel was registered or its last failure was
/// reported; it is not dialled after that. A channel that cannot be registered
/// leaves it pending.
pub proof fn pending_balanced<C, E>(settings: Settings, events: Seq<ConnectEvent<C, E>>)
    requires
        possible(loop_start(settings), events),
    ensures
        ({
            let (connection, actions) = course(loop_start(settings), events);
            let added = count(actions, is_add_pending());
            let removed = count(actions, is_remove_pending());
            &&& events.len() > 0 ==> actions[0] is AddPending && added == 1
            &&& removed <= 1
            &&& forall|i: int, j: int|
                0 <= i < j < actions.len() && #[trigger] actions[i] is RemovePending ==> !(
                #[trigger] actions[j] is Connect)
            &&& forall|i: int|
                0 <= i < actions.len() && #[trigger] actions[i] is RemovePending ==> i > 0 && (
                actions[i - 1] is RegisterChannel || actions[i - 1] is NotifyFailure)
            &&& connection.phase is Finished ==> actions.last() is Return
            &&& connection.phase is Finished && actions.last()->Return_0 is Ok ==> removed == 1
            &&& connection.phase is Finished && actions.last()->Return_0 is Err ==> removed == 0
        }),
    decreases events.len(),
{
    course_tallied(settings, events);
    if events.len() > 0 {
        let start = loop_start::<C>(settings);
        let before = course(start, events.drop_last());
        let after = course(start, events);
        pending_balanced(settings, events.drop_last());
        course_shape(settings, events.drop_last());
        last_action(settings, events.drop_last());
        assert(after.1.drop_last() == before.1);
        assert forall|i: int, j: int|
            0 <= i < j < after.1.len() && #[trigger] after.1[i] is RemovePending implies !(
        #[trigger] after.1[j] is Connect) by {
            assert(after.1[i] == before.1[i]);
            if j == after.1.len() - 1 {
                course_tallied(settings, events.drop_last());
                counted_if_present(before.1, is_remove_pending(), i);
            } else {
                assert(after.1[j] == before.1[j]);
            }
        }
        assert forall|i: int|
            0 <= i < after.1.len() && #[trigger] after.1[i] is RemovePending implies i > 0 && (
        after.1[i - 1] is RegisterChannel || after.1[i - 1] is NotifyFailure) by {
            if i < after.1.len() - 1 {
                assert(after.1[i] == before.1[i]);
            }
        }
    }
}

/// The phase of a connection whose channel is being registered, or whose failure
/// is being reported, shows in its last action.
proof fn last_action<C, E>(settings: Settings, events: Seq<ConnectEvent<C, E>>)
    requires
        possible(loop_start(settings), events),
    ensures
        ({
            let (connection, actions) = course(loop_start(settings), events);
            &&& connection.phase is Registering ==> actions.len() > 0
                && actions.last() is RegisterChannel
            &&& connection.phase is NotifyingFailure ==> actions.len() > 0
                && actions.last() is NotifyFailure
        }),
{
}

/// The phase is the last action, still under way: each phase but the one of a
/// connection that has not begun belongs to one action, and the two removals are
/// told apart by whether the peer has answered.
pub proof fn phase_shows_last_action<C, E>(settings: Settings, events: Seq<ConnectEvent<C, E>>)
    requires
        possible(loop_start(settings), events),
    ensures
        ({
            let (connection, actions) = course(loop_start(settings), events);
            let phase = connection.phase;
            &&& actions.len() == events.len()
            &&& phase is Idle <==> actions.len() == 0
            &&& actions.len() > 0 ==> {
                let action = actions.last();
                &&& phase is AddingPending <==> action is AddPending
                &&& phase is Connecting <==> action is Connect
                &&& phase is SubscribingStop <==> action is SubscribeStop
                &&& phase is Registering <==> action is RegisterChannel
                &&& phase is ClearingPending <==> action is RemovePending && answered_on(
                    events,
                ) is Some
                &&& phase is NotifyingConnected <==> action is NotifyConnected
                &&& phase is Open <==> action is AwaitStop
                &&& phase is NotifyingFailure <==> action is NotifyFailure
                &&& phase is Sleeping <==> action is Sleep
                &&& phase is Suspending <==> action is RemovePending && answered_on(events) is None
                &&& phase is Finished <==> action is Return
            }
        }),
{
    course_shape(settings, events);
    one_channel(settings, events);
    course_tallied(settings, events);
    if events.len() > 0 {
        course_tallied(settings, events.drop_last());
    }
}

/// An action of a kind that was not counted did not occur.
proof fn counted_if_present<E>(
    actions: Seq<ConnectAction<E>>,
    kind: spec_fn(ConnectAction<E>) -> bool,
    i: int,
)
    requires
        0 <= i < actions.len(),
        kind(actions[i]),
    ensures
        count(actions, kind) > 0,
    decreases actions.len(),
{
    if i < actions.len() - 1 {
        counted_if_present(actions.drop_last(), kind, i);
    }
}

/// With a limit, the peer is dialled at most that often.
pub proof fn attempts_bounded<C, E>(settings: Settings, events: Seq<ConnectEvent<C, E>>)
    requires
        possible(loop_start(settings), events),
        settings.manual_attempt_limit > 0,
    ensures
        count(course(loop_start(settings), events).1, is_connect())
            <= settings.manual_attempt_limit,
{
    course_tallied(settings, events);
}

/// Subscribers are told of every failed attempt, and of nothing else that
/// failed.
pub proof fn failures_notified<C, E>(settings: Settings, events: Seq<ConnectEvent<C, E>>)
    requires
        possible(loop_start(settings), events),
    ensures
        count(course(loop_start(settings), events).1, is_notify_failure()) == failures(events),
{
    course_tallied(settings, events);
}

/// Between two attempts there is one wait: while the peer is being dialled,
/// there were as many waits as earlier attempts.
pub proof fn one_wait_between_attempts<C, E>(settings: Settings, events: Seq<ConnectEvent<C, E>>)
    requires
        possible(loop_start(settings), events),
        course(loop_start(settings), events).0.phase is Connecting,
    ensures
        ({
            let actions = course(loop_start(settings), events).1;
            count(actions, is_connect()) == count(actions, is_sleep()) + 1
        }),
{
    course_tallied(settings, events);
}

/// Every wait lasts as long as the settings say.
pub proof fn waits_last_the_timeout<C, E>(settings: Settings, events: Seq<ConnectEvent<C, E>>, i: int)
    requires
        possible(loop_start(settings), events),
        0 <= i < events.len(),
        course(loop_start(settings), events).1[i] is Sleep,
    ensures
        course(loop_start(settings), events).1[i] == (ConnectAction::<E>::Sleep {
            seconds: settings.outbound_connect_timeout,
        }),
    decreases events.len(),
{
    let start = loop_start::<C>(settings);
    course_shape(settings, events.drop_last());
    if i < events.len() - 1 {
        waits_last_the_timeout(settings, events.drop_last(), i);
    }
}

proof fn course_shape<C, E>(settings: Settings, events: Seq<ConnectEvent<C, E>>)
    ensures
        course(loop_start(settings), events).0.timeout == settings.outbound_connect_timeout,
        course(loop_start(settings), events).1.len() == events.len(),
    decreases events.len(),
{
    if events.len() > 0 {
        course_shape(settings, events.drop_last());
    }
}

/// A connection ends in one of three ways: its channel could not be
/// registered, its channel was open and stopped, or as many attempts as the
/// limit allows have failed. Without a limit the last of these does not occur.
/// In each case there was one wait between two attempts.
pub proof fn three_endings<C, E>(settings: Settings, events: Seq<ConnectEvent<C, E>>)
    requires
        possible(loop_start(settings), events),
        course(loop_start(settings), events).0.phase is Finished,
    ensures
        ({
            let actions = course(loop_start(settings), events).1;
            let limit = settings.manual_attempt_limit;
            &&& actions.last() is Return
            &&& count(actions, is_sleep()) + 1 == count(actions, is_connect())
            &&& if actions.last()->Return_0 is Err {
                &&& count(actions, is_notify_connected()) == 0
                &&& count(actions, is_connect()) == failures(events) + 1
            } else if count(actions, is_notify_connected()) == 1 {
                count(actions, is_connect()) == failures(events) + 1
            } else {
                &&& limit > 0
                &&& failures(events) == limit
                &&& count(actions, is_notify_connected()) == 0
                &&& count(actions, is_connect()) == limit
                &&& count(actions, is_sleep()) == limit - 1
            }
        }),
{
    course_tallied(settings, events);
}

/// Everything that is done with a channel is done with the one channel on which
/// the peer answered: the peer answers at most once, the connection keeps that
/// channel from then on, and no channel is subscribed to, registered, announced
/// or awaited before.
pub proof fn one_channel<C, E>(settings: Settings, events: Seq<ConnectEvent<C, E>>)
    requires
        possible(loop_start(settings), events),
    ensures
        ({
            let (connection, actions) = course(loop_start(settings), events);
            &&& connection.channel == answered_on(events)
            &&& forall|i: int|
                0 <= i < events.len() && #[trigger] events[i] is Connected ==> connection.channel
                    == Some(events[i]->Connected_0)
            &&& forall|i: int, j: int|
                0 <= i < j < events.len() && #[trigger] events[i] is Connected ==> !(
                #[trigger] events[j] is Connected)
            &&& forall|i: int|
                0 <= i < actions.len() && is_about_channel(#[trigger] actions[i])
                    ==> answered_on(events) is Some && answered_on(events.take(i + 1))
                    == answered_on(events)
        }),
    decreases events.len(),
{
    let start = loop_start::<C>(settings);
    let (connection, actions) = course(start, events);
    course_tallied(settings, events);
    course_shape(settings, events);
    if events.len() > 0 {
        let earlier = events.drop_last();
        let before = course(start, earlier);
        one_channel(settings, earlier);
        course_tallied(settings, earlier);
        course_shape(settings, earlier);
        assert forall|i: int|
            0 <= i < events.len() && #[trigger] events[i] is Connected implies connection.channel
            == Some(events[i]->Connected_0) by {
            if i < events.len() - 1 {
                assert(events[i] == earlier[i]);
            }
        }
        assert forall|i: int, j: int|
            0 <= i < j < events.len() && #[trigger] events[i] is Connected implies !(
        #[trigger] events[j] is Connected) by {
            assert(events[i] == earlier[i]);
            if j < events.len() - 1 {
                assert(events[j] == earlier[j]);
            }
        }
        assert forall|i: int|
            0 <= i < actions.len() && is_about_channel(
                #[trigger] actions[i],
            ) implies answered_on(events) is Some && answered_on(events.take(i + 1)) == answered_on(
            events,
        ) by {
            if i < actions.len() - 1 {
                assert(actions[i] == before.1[i]);
                assert(earlier.take(i + 1) =~= events.take(i + 1));
            } else {
                assert(events.take(i + 1) =~= events);
            }
        }
    }
}

/// A channel that cannot be registered ends the course with that very error,
/// whatever the limit: it is never announced, and the peer stays pending. No
/// other course ends with an error.
pub proof fn registration_error_ends_the_course<C, E>(
    settings: Settings,
    events: Seq<ConnectEvent<C, E>>,
)
    requires
        possible(loop_start(settings), events),
        events.len() > 0,
    ensures
        ({
            let (connection, actions) = course(loop_start(settings), events);
            &&& events.last() is RegisterFailed ==> {
                &&& actions.last() == ConnectAction::<E>::Return(
                    Err(events.last()->RegisterFailed_0),
                )
                &&& connection.phase is Finished
                &&& count(actions, is_notify_connected()) == 0
                &&& count(actions, is_remove_pending()) == 0
                &&& actions.len() > 1
                &&& actions[actions.len() - 2] is RegisterChannel
            }
            &&& (actions.last() is Return && actions.last()->Return_0 is Err)
                ==> events.last() is RegisterFailed
        }),
{
    let earlier = events.drop_last();
    course_tallied(settings, events);
    course_tallied(settings, earlier);
    course_shape(settings, earlier);
    phase_shows_last_action(settings, earlier);
    assert(course(loop_start(settings), events).1.drop_last() == course(
        loop_start(settings),
        earlier,
    ).1);
}

/// What comes of dialling shows at once: a failure is told of, and only then; an
/// answer has its channel subscribed to, and only then.
pub proof fn dialling_is_answered<C, E>(settings: Settings, events: Seq<ConnectEvent<C, E>>)
    requires
        possible(loop_start(settings), events),
        events.len() > 0,
    ensures
        ({
            let (connection, actions) = course(loop_start(settings), events);
            &&& events.last() is ConnectFailed <==> actions.last() is NotifyFailure
            &&& events.last() is Connected <==> actions.last() is SubscribeStop
            &&& events.last() is Connected ==> connection.channel == Some(
                events.last()->Connected_0,
            )
            &&& events.last() is ConnectFailed ==> connection.channel is None
        }),
{
    course_tallied(settings, events.drop_last());
    course_tallied(settings, events);
}

/// Whether the action at `i` is the one due after what was done and reported
/// before it. The history decides, not the numbers that a connection keeps: a
/// failed attempt is the last one exactly when as many have failed as the limit
/// allows, and the peer is announced exactly when its channel was registered.
pub open spec fn due<C, E>(
    settings: Settings,
    events: Seq<ConnectEvent<C, E>>,
    actions: Seq<ConnectAction<E>>,
    i: int,
) -> bool {
    let limit = settings.manual_attempt_limit;
    if i == 0 {
        actions[i] is AddPending
    } else {
        match actions[i - 1] {
            ConnectAction::AddPending => actions[i] is Connect,
            ConnectAction::Sleep { .. } => actions[i] is Connect,
            ConnectAction::Connect { .. } => if events[i] is ConnectFailed {
                actions[i] is NotifyFailure
            } else {
                actions[i] is SubscribeStop
            },
            ConnectAction::NotifyFailure => if limit > 0 && failures(events.take(i)) == limit {
                actions[i] is RemovePending
            } else {
                actions[i] == (ConnectAction::<E>::Sleep {
                    seconds: settings.outbound_connect_timeout,
                })
            },
            ConnectAction::SubscribeStop => actions[i] is RegisterChannel,
            ConnectAction::RegisterChannel => match events[i] {
                ConnectEvent::RegisterFailed(error) => actions[i] == ConnectAction::<E>::Return(
                    Err(error),
                ),
                _ => actions[i] is RemovePending,
            },
            ConnectAction::RemovePending => if answered_on(events.take(i)) is Some {
                actions[i] is NotifyConnected
            } else {
                actions[i] == ConnectAction::<E>::Return(Ok(()))
            },
            ConnectAction::NotifyConnected => actions[i] is AwaitStop,
            ConnectAction::AwaitStop => actions[i] == ConnectAction::<E>::Return(Ok(())),
            ConnectAction::Return(_) => false,
        }
    }
}

/// On every course, every action is the one that is due by what was done and
/// reported before.
pub proof fn every_action_is_due<C, E>(settings: Settings, events: Seq<ConnectEvent<C, E>>, i: int)
    requires
        possible(loop_start(settings), events),
        0 <= i < events.len(),
    ensures
        due(settings, events, course(loop_start(settings), events).1, i),
    decreases events.len(),
{
    let start = loop_start::<C>(settings);
    let earlier = events.drop_last();
    let actions = course(start, events).1;
    course_shape(settings, earlier);
    assert(actions.drop_last() == course(start, earlier).1);
    if i < events.len() - 1 {
        every_action_is_due(settings, earlier, i);
        assert(events.take(i) =~= earlier.take(i));
        assert(actions[i] == course(start, earlier).1[i]);
    } else {
        assert(events.take(i) =~= earlier);
        course_tallied(settings, earlier);
        phase_shows_last_action(settings, earlier);
        one_channel(settings, earlier);
    }
}

/// Attempts are numbered from 1 without a gap, as far as their numbers reach.
pub proof fn attempts_are_numbered<C, E>(
    settings: Settings,
    events: Seq<ConnectEvent<C, E>>,
    i: int,
)
    requires
        possible(loop_start(settings), events),
        0 <= i < events.len(),
        course(loop_start(settings), events).1[i] is Connect,
    ensures
        ({
            let actions = course(loop_start(settings), events).1;
            let number = count(actions.take(i + 1), is_connect());
            number <= i32::MAX ==> actions[i] == (ConnectAction::<E>::Connect {
                attempt: number as i32,
            })
        }),
    decreases events.len(),
{
    let start = loop_start::<C>(settings);
    let earlier = events.drop_last();
    let actions = course(start, events).1;
    course_shape(settings, earlier);
    assert(actions.drop_last() == course(start, earlier).1);
    if i < events.len() - 1 {
        attempts_are_numbered(settings, earlier, i);
        assert(actions.take(i + 1) =~= course(start, earlier).1.take(i + 1));
    } else {
        assert(actions.take(i + 1) =~= actions);
        course_tallied(settings, events);
        course_tallied(settings, earlier);
    }
}

/// What can be reported depends on the last action alone: of dialling an answer
/// or a failure, of registering success or an error, of the end nothing, and of
/// everything else that it is done.
pub proof fn what_can_be_reported<C, E>(
    settings: Settings,
    events: Seq<ConnectEvent<C, E>>,
    event: ConnectEvent<C, E>,
)
    requires
        possible(loop_start(settings), events),
    ensures
        ({
            let actions = course(loop_start(settings), events).1;
            possible(loop_start(settings), events.push(event)) <==> if actions.len() == 0 {
                event is Done
            } else {
                match actions.last() {
                    ConnectAction::Connect { .. } => event is Connected || event is ConnectFailed,
                    ConnectAction::RegisterChannel => event is Done || event is RegisterFailed,
                    ConnectAction::Return(_) => false,
                    _ => event is Done,
                }
            }
        }),
{
    assert(events.push(event).drop_last() == events);
    phase_shows_last_action(settings, events);
}

/// A connection is told to begin an attempt exactly when the next action is to
/// dial, and it counts the attempts that were begun.
pub proof fn attempts_are_counted<C, E>(
    settings: Settings,
    events: Seq<ConnectEvent<C, E>>,
    event: ConnectEvent<C, E>,
)
    requires
        possible(loop_start(settings), events.push(event)),
    ensures
        ({
            let (connection, actions) = course(loop_start(settings), events);
            let after = course(loop_start(settings), events.push(event)).1;
            &&& connection.begins_attempt(event) <==> after.last() is Connect
            &&& connection.tried == count(actions, is_connect())
            &&& connection.attempts == settings.manual_attempt_limit
            &&& connection.timeout == settings.outbound_connect_timeout
        }),
{
    assert(events.push(event).drop_last() == events);
    course_tallied(settings, events);
    course_shape(settings, events);
}

/// What is reported while an unreachable peer fails `times` times.
pub open spec fn unreachable<C, E>(times: nat) -> Seq<ConnectEvent<C, E>>
    decreases times,
{
    if times == 0 {
        seq![ConnectEvent::Done, ConnectEvent::Done]
    } else {
        unreachable((times - 1) as nat).push(ConnectEvent::ConnectFailed).push(
            ConnectEvent::Done,
        ).push(ConnectEvent::Done)
    }
}

/// What is reported of a peer that answers on `channel`, until that stops.
pub open spec fn answers<C, E>(channel: C) -> Seq<ConnectEvent<C, E>> {
    seq![
        ConnectEvent::Connected(channel),
        ConnectEvent::Done,
        ConnectEvent::Done,
        ConnectEvent::Done,
        ConnectEvent::Done,
        ConnectEvent::Done,
    ]
}

proof fn course_push<C, E>(start: LoopView<C>, events: Seq<ConnectEvent<C, E>>, event: ConnectEvent<C, E>)
    requires
        possible(start, events),
        course(start, events).0.expects(event),
    ensures
        possible(start, events.push(event)),
        course(start, events.push(event)).0 == course(start, events).0.step(event).0,
        course(start, events.push(event)).1 == course(start, events).1.push(
            course(start, events).0.step(event).1,
        ),
{
    assert(events.push(event).drop_last() == events);
}

/// As long as attempts are left, and for ever without a limit, an unreachable
/// peer is dialled again.
pub proof fn dials_again<C, E>(settings: Settings, times: nat)
    requires
        settings.manual_attempt_limit == 0 || times < settings.manual_attempt_limit,
    ensures
        ({
            let events = unreachable::<C, E>(times);
            let (connection, actions) = course(loop_start(settings), events);
            &&& possible(loop_start(settings), events)
            &&& connection.phase is Connecting
            &&& connection.tried == times + 1
            &&& actions.last() == (ConnectAction::<E>::Connect { attempt: (times + 1) as i32 })
        }),
    decreases times,
{
    let start = loop_start::<C>(settings);
    let done = ConnectEvent::<C, E>::Done;
    let none = Seq::<ConnectEvent<C, E>>::empty();
    if times == 0 {
        course_push(start, none, done);
        course_push(start, none.push(done), done);
        assert(unreachable::<C, E>(0) =~= none.push(done).push(done));
    } else {
        let before = unreachable::<C, E>((times - 1) as nat);
        let failed = before.push(ConnectEvent::ConnectFailed);
        dials_again::<C, E>(settings, (times - 1) as nat);
        course_tallied(settings, before);
        course_push(start, before, ConnectEvent::ConnectFailed);
        course_push(start, failed, done);
        course_push(start, failed.push(done), done);
    }
}

/// When every allowed attempt has failed, the peer is dropped from the pending
/// connections and the course ends well.
pub proof fn gives_up_at_the_limit<C, E>(settings: Settings)
    requires
        settings.manual_attempt_limit > 0,
    ensures
        ({
            let events = unreachable::<C, E>(settings.manual_attempt_limit as nat);
            let (connection, actions) = course(loop_start(settings), events);
            &&& possible(loop_start(settings), events)
            &&& connection.phase is Finished
            &&& actions.last() == ConnectAction::<E>::Return(Ok(()))
            &&& actions[actions.len() - 2] is RemovePending
            &&& count(actions, is_connect()) == settings.manual_attempt_limit
            &&& count(actions, is_notify_failure()) == settings.manual_attempt_limit
            &&& count(actions, is_sleep()) == settings.manual_attempt_limit - 1
        }),
{
    let start = loop_start::<C>(settings);
    let limit = settings.manual_attempt_limit as nat;
    let done = ConnectEvent::<C, E>::Done;
    let before = unreachable::<C, E>((limit - 1) as nat);
    let failed = before.push(ConnectEvent::ConnectFailed);
    dials_again::<C, E>(settings, (limit - 1) as nat);
    course_tallied(settings, before);
    course_push(start, before, ConnectEvent::ConnectFailed);
    course_push(start, failed, done);
    course_push(start, failed.push(done), done);
    course_tallied(settings, failed.push(done).push(done));
    course_tallied(settings, failed.push(done));
    assert(course(start, failed.push(done).push(done)).1.drop_last() == course(
        start,
        failed.push(done),
    ).1);
}

/// The channel of a peer that answers after `times` failures is registered, the
/// peer is dropped from the pending connections, and the same channel is
/// announced and awaited, in this order. Then the course ends well: the peer is
/// not dialled again.
pub proof fn connects_after_failures<C, E>(settings: Settings, times: nat, channel: C)
    requires
        settings.manual_attempt_limit == 0 || times < settings.manual_attempt_limit,
    ensures
        ({
            let dialled = unreachable::<C, E>(times);
            let events = dialled + answers(channel);
            let (connection, actions) = course(loop_start(settings), events);
            &&& possible(loop_start(settings), events)
            &&& connection.phase is Finished
            &&& connection.channel == Some(channel)
            &&& actions == course(loop_start(settings), dialled).1 + seq![
                ConnectAction::SubscribeStop,
                ConnectAction::RegisterChannel,
                ConnectAction::RemovePending,
                ConnectAction::NotifyConnected,
                ConnectAction::AwaitStop,
                ConnectAction::Return(Ok(())),
            ]
        }),
{
    let start = loop_start::<C>(settings);
    let done = ConnectEvent::<C, E>::Done;
    let dialled = unreachable::<C, E>(times);
    dials_again::<C, E>(settings, times);
    let e1 = dialled.push(ConnectEvent::Connected(channel));
    let e2 = e1.push(done);
    let e3 = e2.push(done);
    let e4 = e3.push(done);
    let e5 = e4.push(done);
    course_push(start, dialled, ConnectEvent::Connected(channel));
    course_push(start, e1, done);
    course_push(start, e2, done);
    course_push(start, e3, done);
    course_push(start, e4, done);
    course_push(start, e5, done);
    assert(dialled + answers(channel) =~= e5.push(done));
    assert(course(start, e5.push(done)).1 =~= course(start, dialled).1 + seq![
        ConnectAction::SubscribeStop,
        ConnectAction::RegisterChannel,
        ConnectAction::RemovePending,
        ConnectAction::NotifyConnected,
        ConnectAction::AwaitStop,
        ConnectAction::Return(Ok(())),
    ]);
}

} // verus!
