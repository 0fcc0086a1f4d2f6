//! What holds of every run of the protocol, whatever the binds decide.
use vstd::prelude::*;

use crate::protocol::{
    admissible,
    after,
    created,
    deleted,
    distinct_ports,
    done_in,
    replay,
    valid_history,
    History,
    Outcome,
    Request,
};

verus! {

proof fn lemma_done_in_last(h: History)
    requires
        h.len() > 0,
    ensures
        forall|req: Request| #[trigger]
            done_in(h, req) <==> (done_in(h.drop_last(), req) || h.last() == (req, Outcome::Done)),
{
    let hd = h.drop_last();
    assert forall|req: Request| #[trigger]
        done_in(h, req) <==> (done_in(hd, req) || h.last() == (req, Outcome::Done)) by {
        if done_in(h, req) {
            let i = choose|i: int| 0 <= i < h.len() && #[trigger] h[i] == (req, Outcome::Done);
            if i < hd.len() {
                assert(hd[i] == h[i]);
            }
        }
        if done_in(hd, req) {
            let i = choose|i: int| 0 <= i < hd.len() && #[trigger] hd[i] == (req, Outcome::Done);
            assert(h[i] == hd[i]);
        }
        if h.last() == (req, Outcome::Done) {
            assert(h[h.len() - 1] == (req, Outcome::Done));
        }
    }
}

proof fn lemma_replay_from_empty(h: History)
    requires
        valid_history(Set::empty(), h),
        distinct_ports(h),
    ensures
        replay(Set::empty(), h) == created(h).difference(deleted(h)),
        deleted(h).subset_of(created(h)),
    decreases h.len(),
{
    if h.len() == 0 {
        assert(created(h) =~= Set::empty());
        assert(deleted(h) =~= Set::empty());
        assert(replay(Set::empty(), h) =~= created(h).difference(deleted(h)));
    } else {
        let hd = h.drop_last();
        let (req, o) = h.last();
        let j = h.len() - 1;
        assert(distinct_ports(hd)) by {
            assert forall|a: int, b: int|
                0 <= a < b < hd.len() && (#[trigger] hd[a]).0.port() == (#[trigger] hd[b]).0.port()
                implies (hd[a].0 is Create) != (hd[b].0 is Create) by {
                assert(hd[a] == h[a] && hd[b] == h[b]);
            }
        }
        lemma_replay_from_empty(hd);
        lemma_done_in_last(h);
        let before = replay(Set::empty(), hd);
        if o is Done {
            match req {
                Request::Create(p) => {
                    if done_in(hd, Request::Create(p)) {
                        let i = choose|i: int|
                            0 <= i < hd.len() && #[trigger] hd[i] == (Request::Create(p), Outcome::Done);
                        assert(h[i] == hd[i]);
                        assert(h[i].0.port() == h[j].0.port());
                    }
                    assert(!created(hd).contains(p));
                    assert(!deleted(hd).contains(p));
                },
                Request::Delete(p) => {
                    assert(before.contains(p));
                },
            }
        }
        assert(created(h) =~= created(hd).union(
            if o is Done && req is Create { set![req.port()] } else { Set::empty() },
        ));
        assert(deleted(h) =~= deleted(hd).union(
            if o is Done && req is Delete { set![req.port()] } else { Set::empty() },
        ));
        assert(replay(Set::empty(), h) =~= created(h).difference(deleted(h)));
    }
}

/// Whatever order requests on distinct ports take the lock in, and whatever
/// each bind decides, a registry that started empty ends up tracking exactly
/// the ports whose create was done, less those whose delete was done.
pub proof fn lemma_distinct_requests_settle(h: History)
    requires
        valid_history(Set::empty(), h),
        distinct_ports(h),
    ensures
        replay(Set::empty(), h) == created(h).difference(deleted(h)),
{
    lemma_replay_from_empty(h);
}

/// A port whose create was done stays tracked as long as no delete of it is
/// done.
pub proof fn lemma_tracked_until_deleted(ports: Set<u16>, h: History, i: int, p: u16)
    requires
        0 <= i < h.len(),
        h[i] == (Request::Create(p), Outcome::Done),
        forall|j: int| i < j < h.len() ==> #[trigger] h[j] != (Request::Delete(p), Outcome::Done),
    ensures
        replay(ports, h).contains(p),
    decreases h.len(),
{
    if i < h.len() - 1 {
        let hd = h.drop_last();
        assert forall|j: int| i < j < hd.len() implies #[trigger] hd[j] != (
            Request::Delete(p),
            Outcome::Done,
        ) by {
            assert(hd[j] == h[j]);
        }
        lemma_tracked_until_deleted(ports, hd, i, p);
        assert(h[h.len() - 1] != (Request::Delete(p), Outcome::Done));
    }
}

/// A port whose delete was done stays untracked, and so unlisted, as long
/// as no create of it is done.
pub proof fn lemma_gone_until_created(ports: Set<u16>, h: History, i: int, p: u16)
    requires
        0 <= i < h.len(),
        h[i] == (Request::Delete(p), Outcome::Done),
        forall|j: int| i < j < h.len() ==> #[trigger] h[j] != (Request::Create(p), Outcome::Done),
    ensures
        !replay(ports, h).contains(p),
    decreases h.len(),
{
    if i < h.len() - 1 {
        let hd = h.drop_last();
        assert forall|j: int| i < j < hd.len() implies #[trigger] hd[j] != (
            Request::Create(p),
            Outcome::Done,
        ) by {
            assert(hd[j] == h[j]);
        }
        lemma_gone_until_created(ports, hd, i, p);
        assert(h[h.len() - 1] != (Request::Create(p), Outcome::Done));
    }
}

/// A second create of a port, with no delete of it done since the first
/// create was done, is refused and leaves the port tracked.
pub proof fn lemma_create_again_refused(ports: Set<u16>, h: History, i: int, p: u16, o: Outcome)
    requires
        0 <= i < h.len(),
        h[i] == (Request::Create(p), Outcome::Done),
        forall|j: int| i < j < h.len() ==> #[trigger] h[j] != (Request::Delete(p), Outcome::Done),
        admissible(replay(ports, h), Request::Create(p), o),
    ensures
        o is Refused,
        after(replay(ports, h), Request::Create(p), o) == replay(ports, h),
        replay(ports, h).contains(p),
{
    lemma_tracked_until_deleted(ports, h, i, p);
}

/// A delete on an empty registry is refused.
pub proof fn lemma_delete_on_empty_refused(p: u16, o: Outcome)
    requires
        admissible(Set::empty(), Request::Delete(p), o),
    ensures
        o is Refused,
{
}

/// After a done create of a port, a listing includes it; the delete that
/// follows is done, and a listing after it excludes the port.
pub proof fn lemma_create_then_delete(ports: Set<u16>, p: u16, o: Outcome)
    requires
        admissible(ports, Request::Create(p), Outcome::Done),
        admissible(after(ports, Request::Create(p), Outcome::Done), Request::Delete(p), o),
    ensures
        after(ports, Request::Create(p), Outcome::Done).contains(p),
        o is Done,
        !after(after(ports, Request::Create(p), Outcome::Done), Request::Delete(p), o).contains(p),
{
}

/// Once a delete of a port is done, a create of it is never refused by the
/// registry: only the bind can still fail it, as it does while the old
/// socket is not yet released.
pub proof fn lemma_recreate_after_delete(ports: Set<u16>, p: u16, o: Outcome)
    requires
        admissible(ports, Request::Delete(p), Outcome::Done),
    ensures
        admissible(after(ports, Request::Delete(p), Outcome::Done), Request::Create(p), o) <==> !(
        o is Refused),
{
}

/// Of two creates of one port, whichever takes the lock first, at most one
/// is done; when the first is done the second is refused, and when the port
/// was free and the first bind did not fail, the first is done.
pub proof fn lemma_racing_creates(ports: Set<u16>, p: u16, o1: Outcome, o2: Outcome)
    requires
        admissible(ports, Request::Create(p), o1),
        admissible(after(ports, Request::Create(p), o1), Request::Create(p), o2),
    ensures
        !(o1 is Done && o2 is Done),
        o1 is Done ==> o2 is Refused,
        !ports.contains(p) && !(o1 is Failed) ==> o1 is Done && o2 is Refused,
{
}

} // verus!
