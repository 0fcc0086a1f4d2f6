//! The registry's observable state as a set of ports, and how each management
//! request moves it.
//!
//! Requests on one registry are serialised by its lock, so any concurrent run
//! is some sequence of the steps below; a `History` is such a sequence, each
//! request paired with whether it succeeded.
use vstd::prelude::*;

verus! {

/// A management request that changes the registry.
pub enum Request {
    Create(u16),
    Delete(u16),
}

impl Request {
    pub open spec fn port(self) -> u16 {
        match self {
            Request::Create(p) => p,
            Request::Delete(p) => p,
        }
    }
}

/// How a request ended.
pub enum Outcome {
    /// It took effect.
    Done,
    /// The registry's state ruled it out: the port was already tracked (for
    /// a create) or not tracked (for a delete).
    Refused,
    /// The port was free in the registry but the listener could not be
    /// started.
    Failed,
}

/// Requests in the order in which they took the registry's lock, each with
/// how it ended.
pub type History = Seq<(Request, Outcome)>;

/// Whether `req` may end with `o` on a registry holding `ports`.
///
/// A create is refused exactly when its port is tracked; otherwise the bind
/// decides between done and failed. A delete is done exactly when its port
/// is tracked, and refused otherwise.
pub open spec fn admissible(ports: Set<u16>, req: Request, o: Outcome) -> bool {
    match req {
        Request::Create(p) => (o is Refused) == ports.contains(p),
        Request::Delete(p) => if ports.contains(p) {
            o is Done
        } else {
            o is Refused
        },
    }
}

/// The ports tracked after `req` ended with `o`.
pub open spec fn after(ports: Set<u16>, req: Request, o: Outcome) -> Set<u16> {
    if !(o is Done) {
        ports
    } else {
        match req {
            Request::Create(p) => ports.insert(p),
            Request::Delete(p) => ports.remove(p),
        }
    }
}

/// Whether every step of `h`, taken from `ports`, is admissible.
pub open spec fn valid_history(ports: Set<u16>, h: History) -> bool
    decreases h.len(),
{
    if h.len() == 0 {
        true
    } else {
        let last = h.last();
        valid_history(ports, h.drop_last()) && admissible(
            replay(ports, h.drop_last()),
            last.0,
            last.1,
        )
    }
}

/// The ports tracked after the whole of `h`, taken from `ports`.
pub open spec fn replay(ports: Set<u16>, h: History) -> Set<u16>
    decreases h.len(),
{
    if h.len() == 0 {
        ports
    } else {
        let last = h.last();
        after(replay(ports, h.drop_last()), last.0, last.1)
    }
}

/// Whether `req` is done somewhere in `h`.
pub open spec fn done_in(h: History, req: Request) -> bool {
    exists|i: int| 0 <= i < h.len() && #[trigger] h[i] == (req, Outcome::Done)
}

/// Ports of the creates in `h` that were done.
pub open spec fn created(h: History) -> Set<u16> {
    Set::new(|p: u16| done_in(h, Request::Create(p)))
}

/// Ports of the deletes in `h` that were done.
pub open spec fn deleted(h: History) -> Set<u16> {
    Set::new(|p: u16| done_in(h, Request::Delete(p)))
}

/// No port is named by two creates of `h`, nor by two deletes.
pub open spec fn distinct_ports(h: History) -> bool {
    forall|i: int, j: int|
        0 <= i < j < h.len() && (#[trigger] h[i]).0.port() == (#[trigger] h[j]).0.port() ==> (
        h[i].0 is Create) != (h[j].0 is Create)
}

} // verus!
