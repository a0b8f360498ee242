//! The course of one manual outbound connection.
//!
//! A [`ConnectLoop`] never touches the network. It asks for one
//! [`ConnectAction`] at a time; the caller performs it and reports what came of
//! it as a [`ConnectEvent`]. Once the peer has answered, the connection keeps the
//! channel: [`ConnectLoop::channel`] is what the later actions are about.
use vstd::prelude::*;

use crate::net::settings::Settings;

verus! {

/// Where a connection stands: the action that is under way, or that none is.
#[derive(Clone, Copy, Debug, PartialEq, Eq, Structural)]
pub enum Phase {
    /// Nothing has been done yet.
    Idle,
    /// The peer is being added to the pending connections.
    AddingPending,
    /// The peer is being dialled.
    Connecting,
    /// The connected channel is being asked to report when it stops.
    SubscribingStop,
    /// The channel is being registered.
    Registering,
    /// The connected peer is being removed from the pending connections.
    ClearingPending,
    /// Subscribers are being told of the channel.
    NotifyingConnected,
    /// The channel is open.
    Open,
    /// Subscribers are being told of a failed attempt.
    NotifyingFailure,
    /// The next attempt is awaited.
    Sleeping,
    /// The unreachable peer is being removed from the pending connections.
    Suspending,
    /// There is nothing left to do.
    Finished,
}

/// What the caller is to do next.
#[derive(Debug, PartialEq, Eq)]
pub enum ConnectAction<E> {
    /// Add the peer to the pending connections.
    AddPending,
    /// Dial the peer; attempts are numbered from 1.
    Connect { attempt: i32 },
    /// Ask the connection's channel to report when it stops.
    SubscribeStop,
    /// Register the connection's channel.
    RegisterChannel,
    /// Remove the peer from the pending connections.
    RemovePending,
    /// Tell subscribers of the connection's channel.
    NotifyConnected,
    /// Wait until the connection's channel stops.
    AwaitStop,
    /// Tell subscribers that an attempt failed.
    NotifyFailure,
    /// Wait before the next attempt.
    Sleep { seconds: u64 },
    /// End with this result.
    Return(Result<(), E>),
}

/// What came of the last action.
#[derive(Debug, PartialEq, Eq)]
pub enum ConnectEvent<C, E> {
    /// The action is done; for a connection that was never advanced, begin.
    Done,
    /// The peer answered on this channel.
    Connected(C),
    /// The peer could not be reached.
    ConnectFailed,
    /// The channel could not be registered.
    RegisterFailed(E),
}

/// The numbers, the phase and the channel of a connection.
pub struct LoopView<C> {
    /// The limit on attempts; 0 means none.
    pub attempts: nat,
    /// How many attempts are left, the current one included.
    pub remaining: nat,
    /// How many attempts were begun.
    pub tried: nat,
    /// Seconds between two attempts.
    pub timeout: nat,
    pub phase: Phase,
    /// The channel on which the peer answered.
    pub channel: Option<C>,
}

/// A connection that has not begun.
pub open spec fn loop_start<C>(settings: Settings) -> LoopView<C> {
    LoopView {
        attempts: settings.manual_attempt_limit as nat,
        remaining: settings.manual_attempt_limit as nat,
        tried: 0,
        timeout: settings.outbound_connect_timeout as nat,
        phase: Phase::Idle,
        channel: None,
    }
}

impl<C> LoopView<C> {
    /// Whether an attempt is being made or its failure is being reported.
    pub open spec fn attempting(self) -> bool {
        self.phase is Connecting || self.phase is NotifyingFailure
    }

    /// Whether the peer has answered and the course has not ended since.
    pub open spec fn connected(self) -> bool {
        self.phase is SubscribingStop || self.phase is Registering || self.phase is ClearingPending
            || self.phase is NotifyingConnected || self.phase is Open
    }

    /// With a limit, the attempts begun and the attempts left add up to it;
    /// until the first failure without one, none is counted as left. There is a
    /// channel from the peer's answer on, and none before.
    pub open spec fn well_formed(self) -> bool {
        &&& (self.phase is Idle || self.phase is AddingPending) ==> self.tried == 0
            && self.remaining == self.attempts
        &&& !(self.phase is Idle || self.phase is AddingPending) ==> self.tried >= 1
        &&& self.attempts > 0 ==> self.tried <= self.attempts
        &&& self.attempts > 0 && self.attempting() ==> self.remaining == self.attempts - self.tried
            + 1
        &&& self.attempts > 0 && self.phase is Sleeping ==> self.remaining == self.attempts
            - self.tried && self.remaining > 0
        &&& self.phase is Suspending ==> self.attempts > 0 && self.tried == self.attempts
        &&& self.phase is Finished || (self.connected() <==> self.channel is Some)
    }

    /// Whether `event` can come of the action that is under way.
    pub open spec fn expects<E>(self, event: ConnectEvent<C, E>) -> bool {
        match self.phase {
            Phase::Connecting => event is Connected || event is ConnectFailed,
            Phase::Registering => event is Done || event is RegisterFailed,
            Phase::Finished => false,
            _ => event is Done,
        }
    }

    /// Whether `event` is followed by another attempt.
    pub open spec fn begins_attempt<E>(self, event: ConnectEvent<C, E>) -> bool {
        event is Done && (self.phase is AddingPending || self.phase is Sleeping)
    }

    /// How many attempts are left once the current one has failed: one fewer
    /// with a limit, always another one without.
    pub open spec fn remaining_after_failure(self) -> nat {
        if self.attempts == 0 {
            1
        } else {
            (self.remaining - 1) as nat
        }
    }

    /// The same numbers and channel in another phase.
    pub open spec fn at(self, phase: Phase) -> LoopView<C> {
        LoopView { phase, ..self }
    }

    /// What follows `event`: where the connection stands then, and the action
    /// that is due.
    pub open spec fn step<E>(self, event: ConnectEvent<C, E>) -> (LoopView<C>, ConnectAction<E>) {
        let attempt = (
            LoopView { tried: self.tried + 1, phase: Phase::Connecting, ..self },
            ConnectAction::Connect { attempt: (self.tried + 1) as i32 },
        );
        match self.phase {
            Phase::Idle => (self.at(Phase::AddingPending), ConnectAction::AddPending),
            Phase::AddingPending => attempt,
            Phase::Connecting => match event {
                ConnectEvent::Connected(channel) => (
                    LoopView {
                        phase: Phase::SubscribingStop,
                        channel: Some(channel),
                        ..self
                    },
                    ConnectAction::SubscribeStop,
                ),
                _ => (self.at(Phase::NotifyingFailure), ConnectAction::NotifyFailure),
            },
            Phase::SubscribingStop => (
                self.at(Phase::Registering),
                ConnectAction::RegisterChannel,
            ),
            Phase::Registering => match event {
                ConnectEvent::RegisterFailed(error) => (
                    self.at(Phase::Finished),
                    ConnectAction::Return(Err(error)),
                ),
                _ => (self.at(Phase::ClearingPending), ConnectAction::RemovePending),
            },
            Phase::ClearingPending => (
                self.at(Phase::NotifyingConnected),
                ConnectAction::NotifyConnected,
            ),
            Phase::NotifyingConnected => (self.at(Phase::Open), ConnectAction::AwaitStop),
            Phase::Open => (self.at(Phase::Finished), ConnectAction::Return(Ok(()))),
            Phase::NotifyingFailure => {
                let counted = LoopView { remaining: self.remaining_after_failure(), ..self };
                if counted.remaining == 0 {
                    (counted.at(Phase::Suspending), ConnectAction::RemovePending)
                } else {
                    (
                        counted.at(Phase::Sleeping),
                        ConnectAction::Sleep { seconds: self.timeout as u64 },
                    )
                }
            },
            Phase::Sleeping => attempt,
            Phase::Suspending => (self.at(Phase::Finished), ConnectAction::Return(Ok(()))),
            Phase::Finished => (self, ConnectAction::Return(Ok(()))),
        }
    }
}

/// One manual outbound connection.
#[derive(Debug)]
pub struct ConnectLoop<C> {
    addr: String,
    attempts: usize,
    remaining: usize,
    tried_attempts: i32,
    timeout: u64,
    phase: Phase,
    channel: Option<C>,
}

impl<C> View for ConnectLoop<C> {
    type V = LoopView<C>;

    closed spec fn view(&self) -> LoopView<C> {
        LoopView {
            attempts: self.attempts as nat,
            remaining: self.remaining as nat,
            tried: self.tried_attempts as nat,
            timeout: self.timeout as nat,
            phase: self.phase,
            channel: self.channel,
        }
    }
}

impl<C> ConnectLoop<C> {
    #[verifier::type_invariant]
    spec fn valid(self) -> bool {
        &&& self.tried_attempts >= 0
        &&& self@.well_formed()
    }

    /// The address of the peer.
    pub closed spec fn peer(&self) -> Seq<char> {
        self.addr@
    }

    /// A connection to `addr` that has not begun.
    pub fn new(addr: String, settings: &Settings) -> (r: ConnectLoop<C>)
        ensures
            r.peer() == addr@,
            r@ == loop_start::<C>(*settings),
            r@.well_formed(),
    {
        let attempts = settings.manual_attempt_limit;
        ConnectLoop {
            addr,
            attempts,
            remaining: attempts,
            tried_attempts: 0,
            timeout: settings.outbound_connect_timeout,
            phase: Phase::Idle,
            channel: None,
        }
    }

    /// The address of the peer.
    pub fn addr(&self) -> (r: &str)
        ensures
            r@ == self.peer(),
    {
        self.addr.as_str()
    }

    /// The limit on attempts; 0 means none.
    pub fn attempts(&self) -> (r: usize)
        ensures
            r == self@.attempts,
    {
        self.attempts
    }

    /// How many attempts were begun.
    pub fn tried_attempts(&self) -> (r: i32)
        ensures
            r == self@.tried,
    {
        proof {
            use_type_invariant(self);
        }
        self.tried_attempts
    }

    /// Where the connection stands.
    pub fn phase(&self) -> (r: Phase)
        ensures
            r == self@.phase,
    {
        self.phase
    }

    /// The channel on which the peer answered, if it did.
    pub fn channel(&self) -> (r: Option<&C>)
        ensures
            match r {
                Some(channel) => self@.channel == Some(*channel),
                None => self@.channel is None,
            },
    {
        self.channel.as_ref()
    }

    /// Takes note of `event` and says what to do next.
    pub(crate) fn advance<E>(self, event: ConnectEvent<C, E>) -> (r: (
        ConnectLoop<C>,
        ConnectAction<E>,
    ))
        requires
            self@.expects(event),
            self@.begins_attempt(event) ==> self@.tried < i32::MAX,
        ensures
            r.0.peer() == self.peer(),
            (r.0@, r.1) == self@.step(event),
            r.0@.well_formed(),
    {
        proof {
            use_type_invariant(&self);
        }
        match self.phase {
            Phase::Idle => (self.enter(Phase::AddingPending), ConnectAction::AddPending),
            Phase::AddingPending => self.attempt(),
            Phase::Connecting => match event {
                ConnectEvent::Connected(channel) => (
                    self.answered(channel),
                    ConnectAction::SubscribeStop,
                ),
                _ => (self.enter(Phase::NotifyingFailure), ConnectAction::NotifyFailure),
            },
            Phase::SubscribingStop => (
                self.enter(Phase::Registering),
                ConnectAction::RegisterChannel,
            ),
            Phase::Registering => match event {
                ConnectEvent::RegisterFailed(error) => (
                    self.enter(Phase::Finished),
                    ConnectAction::Return(Err(error)),
                ),
                _ => (self.enter(Phase::ClearingPending), ConnectAction::RemovePending),
            },
            Phase::ClearingPending => (
                self.enter(Phase::NotifyingConnected),
                ConnectAction::NotifyConnected,
            ),
            Phase::NotifyingConnected => (self.enter(Phase::Open), ConnectAction::AwaitStop),
            Phase::NotifyingFailure => self.count_failure(),
            Phase::Sleeping => self.attempt(),
            _ => (self.enter(Phase::Finished), ConnectAction::Return(Ok(()))),
        }
    }

    /// The same connection in another phase.
    fn enter(self, phase: Phase) -> (r: ConnectLoop<C>)
        requires
            self@.at(phase).well_formed(),
        ensures
            r.peer() == self.peer(),
            r@ == self@.at(phase),
    {
        proof {
            use_type_invariant(&self);
        }
        ConnectLoop {
            addr: self.addr,
            attempts: self.attempts,
            remaining: self.remaining,
            tried_attempts: self.tried_attempts,
            timeout: self.timeout,
            phase,
            channel: self.channel,
        }
    }

    /// The same connection once the peer has answered on `channel`.
    fn answered(self, channel: C) -> (r: ConnectLoop<C>)
        requires
            self@.phase is Connecting,
        ensures
            r.peer() == self.peer(),
            r@ == (LoopView {
                phase: Phase::SubscribingStop,
                channel: Some(channel),
                ..self@
            }),
    {
        proof {
            use_type_invariant(&self);
        }
        ConnectLoop {
            addr: self.addr,
            attempts: self.attempts,
            remaining: self.remaining,
            tried_attempts: self.tried_attempts,
            timeout: self.timeout,
            phase: Phase::SubscribingStop,
            channel: Some(channel),
        }
    }

    /// Begins an attempt.
    fn attempt<E>(self) -> (r: (ConnectLoop<C>, ConnectAction<E>))
        requires
            self@.begins_attempt(ConnectEvent::<C, E>::Done),
            self@.tried < i32::MAX,
        ensures
            r.0.peer() == self.peer(),
            (r.0@, r.1) == self@.step(ConnectEvent::<C, E>::Done),
    {
        proof {
            use_type_invariant(&self);
        }
        let tried_attempts: i32 = self.tried_attempts + 1;
        (
            ConnectLoop {
                addr: self.addr,
                attempts: self.attempts,
                remaining: self.remaining,
                tried_attempts,
                timeout: self.timeout,
                phase: Phase::Connecting,
                channel: self.channel,
            },
            ConnectAction::Connect { attempt: tried_attempts },
        )
    }

    /// Decides after a failed attempt whether there will be another one.
    fn count_failure<E>(self) -> (r: (ConnectLoop<C>, ConnectAction<E>))
        requires
            self@.phase is NotifyingFailure,
        ensures
            r.0.peer() == self.peer(),
            (r.0@, r.1) == self@.step(ConnectEvent::<C, E>::Done),
    {
        proof {
            use_type_invariant(&self);
        }
        let remaining: usize = if self.attempts == 0 {
            1
        } else {
            self.remaining - 1
        };
        let phase = if remaining == 0 {
            Phase::Suspending
        } else {
            Phase::Sleeping
        };
        let action = if remaining == 0 {
            ConnectAction::RemovePending
        } else {
            ConnectAction::Sleep { seconds: self.timeout }
        };
        (
            ConnectLoop {
                addr: self.addr,
                attempts: self.attempts,
                remaining,
                tried_attempts: self.tried_attempts,
                timeout: self.timeout,
                phase,
                channel: self.channel,
            },
            action,
        )
    }
}

} // verus!
