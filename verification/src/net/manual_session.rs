//! The manual session: outbound connections to a predefined set of peers.
use vstd::prelude::*;

use crate::net::connect_loop::{loop_start, ConnectAction, ConnectEvent, ConnectLoop};
use crate::net::settings::Settings;

verus! {

/// A set of session types, one bit for each.
pub type SessionBitFlag = u32;

/// The bit of manual sessions.
pub const SESSION_MANUAL: SessionBitFlag = 0b0100;

/// A manual session, with a task of type `T` for each of its connections.
#[derive(Debug)]
pub struct ManualSession<T> {
    connect_slots: Vec<T>,
}

impl<T> View for ManualSession<T> {
    type V = Seq<T>;

    /// The tasks in the order in which their connections were asked for.
    closed spec fn view(&self) -> Seq<T> {
        self.connect_slots@
    }
}

impl<T> ManualSession<T> {
    /// A session without connections.
    pub fn new() -> (r: ManualSession<T>)
        ensures
            r@ == Seq::<T>::empty(),
    {
        ManualSession { connect_slots: Vec::new() }
    }

    /// The tasks to stop, in this order, when the session ends. The session
    /// keeps them: ending it twice stops each of them twice.
    pub fn stop(&self) -> (r: &Vec<T>)
        ensures
            r@ == self@,
    {
        &self.connect_slots
    }

    /// Keeps `task`, which is to run the connection to `addr`, and returns that
    /// connection.
    pub fn connect<C>(&mut self, addr: String, settings: &Settings, task: T) -> (r: ConnectLoop<C>)
        ensures
            final(self)@ == old(self)@.push(task),
            r.peer() == addr@,
            r@ == loop_start::<C>(*settings),
            r@.well_formed(),
    {
        self.connect_slots.push(task);
        ConnectLoop::new(addr, settings)
    }

    /// Takes note of what came of a connection's last action and says what to
    /// do next, until the answer is [`ConnectAction::Return`].
    pub fn channel_connect_loop<C, E>(
        connection: ConnectLoop<C>,
        event: ConnectEvent<C, E>,
    ) -> (r: (ConnectLoop<C>, ConnectAction<E>))
        requires
            connection@.expects(event),
            connection@.begins_attempt(event) ==> connection@.tried < i32::MAX,
        ensures
            r.0.peer() == connection.peer(),
            (r.0@, r.1) == connection@.step(event),
            r.0@.well_formed(),
    {
        connection.advance(event)
    }

    /// The bit of manual sessions.
    pub fn type_id(&self) -> (r: SessionBitFlag)
        ensures
            r == SESSION_MANUAL,
    {
        SESSION_MANUAL
    }
}

/// The tasks of a session that had `slots` and then took up connections with
/// `tasks`, one after the other.
pub open spec fn connected<T>(slots: Seq<T>, tasks: Seq<T>) -> Seq<T>
    decreases tasks.len(),
{
    if tasks.len() == 0 {
        slots
    } else {
        connected(slots, tasks.drop_last()).push(tasks.last())
    }
}

/// A session that ends stops the task of every connection it ever took up, each
/// once and the oldest first.
pub proof fn stop_reaches_every_task<T>(slots: Seq<T>, tasks: Seq<T>)
    ensures
        connected(slots, tasks) == slots + tasks,
    decreases tasks.len(),
{
    if tasks.len() == 0 {
        assert(slots + tasks =~= slots);
    } else {
        stop_reaches_every_task(slots, tasks.drop_last());
        assert((slots + tasks.drop_last()).push(tasks.last()) =~= slots + tasks);
    }
}

} // verus!
