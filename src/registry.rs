//! The map from port to running listener, and the create / list / delete
//! steps that a caller runs while holding the registry's lock.
use vstd::prelude::*;

use std::collections::HashMap;

use crate::protocol::{admissible, after, Outcome, Request};

verus! {

broadcast use vstd::std_specs::hash::group_hash_axioms;

/// Why a create was refused.
#[derive(Debug, PartialEq, Eq)]
pub enum CreateError<E> {
    /// The registry already tracks a listener on that port.
    PortAlreadyInUse,
    /// The port was free in the registry but the listener could not be
    /// started on it; the starter's error is handed back as it came.
    BindFailed(E),
}

/// Why a delete was refused.
#[derive(Debug, PartialEq, Eq, Structural)]
pub enum DeleteError {
    /// The registry tracks no listener on that port.
    NotFound,
}

/// How a create ended, in the terms of the protocol.
pub open spec fn create_outcome<T, E>(r: Result<(u16, T), CreateError<E>>) -> Outcome {
    match r {
        Ok(_) => Outcome::Done,
        Err(CreateError::PortAlreadyInUse) => Outcome::Refused,
        Err(CreateError::BindFailed(_)) => Outcome::Failed,
    }
}

/// How a delete ended, in the terms of the protocol.
pub open spec fn delete_outcome<H>(r: Result<H, DeleteError>) -> Outcome {
    match r {
        Ok(_) => Outcome::Done,
        Err(_) => Outcome::Refused,
    }
}

/// The listeners of this process, at most one per port.
///
/// `H` is what is kept for a running listener: the means to stop it.
pub struct Registry<H> {
    servers: HashMap<u16, H>,
}

impl<H> View for Registry<H> {
    type V = Map<u16, H>;

    closed spec fn view(&self) -> Map<u16, H> {
        self.servers@
    }
}

impl<H> Registry<H> {
    /// The ports that have a listener.
    pub open spec fn ports(&self) -> Set<u16> {
        self@.dom()
    }

    /// An empty registry.
    pub fn new() -> (r: Registry<H>)
        ensures
            r@ == Map::<u16, H>::empty(),
    {
        Registry { servers: HashMap::new() }
    }

    /// Whether a listener on `port` is tracked.
    pub fn contains(&self, port: u16) -> (r: bool)
        ensures
            r == self@.contains_key(port),
    {
        self.servers.contains_key(&port)
    }

    /// How many listeners are tracked.
    pub fn len(&self) -> (r: usize)
        ensures
            r == self@.len(),
    {
        self.servers.len()
    }

    /// Every tracked port, once each, in no particular order.
    pub fn list(&self) -> (r: Vec<u16>)
        ensures
            r@.to_set() == self.ports(),
            r@.no_duplicates(),
            r@.len() == self@.len(),
    {
        let mut r: Vec<u16> = Vec::new();
        for k in it: self.servers.keys()
            invariant
                r@ == it.seq().unref().take(it.index()),
                it.seq().unref().to_set() == self.ports(),
                it.seq().unref().no_duplicates(),
                it.index() == it.seq().len() ==> r@ == it.seq().unref(),
        {
            r.push(*k);
            assert(r@ =~= it.seq().unref().take(it.index() + 1));
            assert(it.index() + 1 == it.seq().len() ==> r@ =~= it.seq().unref());
        }
        r
    }

    /// Starts a listener on `port` and tracks it, unless one is tracked
    /// there already.
    ///
    /// `start` binds the port and returns the handle to keep and the serving
    /// task, which is handed back to the caller to run once the lock is
    /// released. `start` is only called when the port is free in the
    /// registry; when it fails, nothing is tracked and its error comes back
    /// as `BindFailed`. Right after a delete of the same port the old socket
    /// may still be draining, so the bind can fail for a while: the registry
    /// does not retry, and the caller may try again later.
    pub fn create<T, E, F>(&mut self, port: u16, start: F) -> (r: Result<(u16, T), CreateError<E>>) where
        F: FnOnce(u16) -> Result<(H, T), E>,

        requires
            start.requires((port,)),
        ensures
            old(self)@.contains_key(port) ==> r == Err::<(u16, T), CreateError<E>>(
                CreateError::PortAlreadyInUse,
            ) && final(self)@ == old(self)@,
            !old(self)@.contains_key(port) ==> match r {
                Ok((q, task)) => {
                    &&& q == port
                    &&& final(self)@ == old(self)@.insert(port, final(self)@[port])
                    &&& start.ensures((port,), Ok((final(self)@[port], task)))
                },
                Err(CreateError::BindFailed(e)) => {
                    &&& final(self)@ == old(self)@
                    &&& start.ensures((port,), Err(e))
                },
                Err(CreateError::PortAlreadyInUse) => false,
            },
            admissible(old(self).ports(), Request::Create(port), create_outcome(r)),
            final(self).ports() == after(old(self).ports(), Request::Create(port), create_outcome(r)),
    {
        if self.servers.contains_key(&port) {
            return Err(CreateError::PortAlreadyInUse);
        }
        match start(port) {
            Ok((handle, task)) => {
                self.servers.insert(port, handle);
                Ok((port, task))
            },
            Err(e) => Err(CreateError::BindFailed(e)),
        }
    }

    /// Stops tracking the listener on `port` and hands its handle back, so
    /// that the caller signals it to stop after releasing the lock.
    pub fn delete(&mut self, port: u16) -> (r: Result<H, DeleteError>)
        ensures
            match r {
                Ok(h) => {
                    &&& old(self)@.contains_key(port)
                    &&& h == old(self)@[port]
                    &&& final(self)@ == old(self)@.remove(port)
                },
                Err(e) => {
                    &&& !old(self)@.contains_key(port)
                    &&& e == DeleteError::NotFound
                    &&& final(self)@ == old(self)@
                },
            },
            admissible(old(self).ports(), Request::Delete(port), delete_outcome(r)),
            final(self).ports() == after(old(self).ports(), Request::Delete(port), delete_outcome(r)),
    {
        match self.servers.remove(&port) {
            Some(h) => Ok(h),
            None => Err(DeleteError::NotFound),
        }
    }
}

} // verus!
