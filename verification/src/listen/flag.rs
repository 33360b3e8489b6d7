//! The flag that keeps a websocket running. It is set when the websocket is made, it can be
//! cleared, and nothing can set it again.

use crate::listen::{Connection, Listen, ShutdownHandle};
use std::sync::atomic::{AtomicBool, Ordering};
use std::sync::Arc;
use vstd::prelude::*;

verus! {

/// The flag of a websocket, as the websocket has it: it can be looked at.
pub struct Flag {
    cell: AtomicBool,
}

impl Flag {
    /// What holds the flag.
    pub closed spec fn cell(&self) -> AtomicBool {
        self.cell
    }

    /// A flag that is set.
    pub(super) fn new() -> (r: Self)
        ensures
            call_ensures(AtomicBool::new, (true,), r.cell()),
    {
        Flag { cell: AtomicBool::new(true) }
    }

    /// Whether the flag is set.
    pub fn load(&self, order: Ordering) -> (r: bool)
        ensures
            call_ensures(AtomicBool::load, (&self.cell(), order), r),
    {
        self.cell.load(order)
    }
}

/// The flag of a websocket, as its shutdown handles have it: it can be looked at, and it can
/// be cleared. Only a websocket that is handed over to be run gives a switch for its flag.
pub struct Switch {
    flag: Arc<Flag>,
}

impl Switch {
    /// The flag that the switch clears.
    pub closed spec fn flag(&self) -> Arc<Flag> {
        self.flag
    }

    /// The switch of a flag.
    fn new(flag: Arc<Flag>) -> (r: Self)
        ensures
            r.flag() == flag,
    {
        Switch { flag }
    }

    /// Whether the flag is set.
    pub fn load(&self, order: Ordering) -> (r: bool)
        ensures
            call_ensures(AtomicBool::load, (&self.flag().cell(), order), r),
    {
        self.flag.load(order)
    }

    /// Clears the flag where `value` is `false`. A flag cannot be set again: with `true`
    /// nothing is done.
    pub fn store(&self, value: bool, order: Ordering)
        ensures
            !value ==> call_ensures(AtomicBool::store, (&self.flag().cell(), false, order), ()),
    {
        if !value {
            self.flag.cell.store(false, order);
        }
    }
}

impl<T, M, O, E, I> Listen<T, M, O, E, I> {
    /// The connection to run, and the handle to stop it with.
    pub fn into_shutdown_handle(self) -> (r: (Connection<T, M, O, E, I>, ShutdownHandle))
        ensures
            r.0 == self.connection,
            r.1.running.flag() == self.running,
            r.1.receiver == self.receiver,
    {
        let running = Arc::new(Switch::new(self.running));
        (self.connection, ShutdownHandle { running, receiver: self.receiver })
    }
}

} // verus!
