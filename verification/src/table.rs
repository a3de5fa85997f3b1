//! The outstanding-request table: in-flight requests keyed by packet
//! identifier, owned by the dispatcher.
//!
//! An entry is created when a request is sent, removed when its matching
//! acknowledgment arrives, and on connection teardown every entry is
//! either requeued for resend (idempotent kinds) or failed back to its
//! originator (kinds that must not be silently reissued).

use vstd::prelude::*;
use crate::request::UserRequest;

verus! {

/// One in-flight request awaiting its acknowledgment.
#[derive(Debug, Clone)]
pub struct Outstanding {
    pub pkid: u16,
    pub request: UserRequest,
}

/// Whether a request kind may safely be sent again after a reconnect.
/// Subscriptions, unsubscriptions and pings are idempotent; a publish may
/// already have taken effect at the broker, so it is failed back to the
/// caller instead, as are the connection-lifecycle kinds.
pub open spec fn retry_safe(request: UserRequest) -> bool {
    match request {
        UserRequest::Subscribe(_) => true,
        UserRequest::Unsubscribe(_) => true,
        UserRequest::Ping => true,
        _ => false,
    }
}

/// The requests of `entries` that are safe to resend, oldest first.
pub open spec fn retry_part(entries: Seq<Outstanding>) -> Seq<UserRequest>
    decreases entries.len(),
{
    if entries.len() == 0 {
        Seq::empty()
    } else {
        retry_part(entries.drop_last()) + (if retry_safe(entries.last().request) {
            seq![entries.last().request]
        } else {
            Seq::empty()
        })
    }
}

/// The requests of `entries` that must be failed back, oldest first.
pub open spec fn fail_part(entries: Seq<Outstanding>) -> Seq<UserRequest>
    decreases entries.len(),
{
    if entries.len() == 0 {
        Seq::empty()
    } else {
        fail_part(entries.drop_last()) + (if retry_safe(entries.last().request) {
            Seq::empty()
        } else {
            seq![entries.last().request]
        })
    }
}

/// The in-flight requests, in send order, with packet identifiers unique.
#[derive(Debug)]
pub struct OutstandingTable {
    pub entries: Vec<Outstanding>,
}

impl OutstandingTable {
    /// Whether some entry carries this packet identifier.
    pub open spec fn has_pkid(self, pkid: u16) -> bool {
        exists|i: int| 0 <= i < self.entries@.len() && self.entries@[i].pkid == pkid
    }

    /// No two entries share a packet identifier.
    pub open spec fn wf(self) -> bool {
        forall|i: int, j: int|
            0 <= i < j < self.entries@.len() ==> self.entries@[i].pkid != self.entries@[j].pkid
    }

    /// An empty table.
    pub fn new() -> (t: OutstandingTable)
        ensures
            t.wf(),
            t.entries@ =~= Seq::<Outstanding>::empty(),
    {
        OutstandingTable { entries: Vec::new() }
    }

    /// How many requests are in flight.
    pub fn len(&self) -> (r: usize)
        ensures
            r == self.entries@.len(),
    {
        self.entries.len()
    }

    /// Whether this packet identifier is in flight.
    pub fn contains(&self, pkid: u16) -> (r: bool)
        ensures
            r == self.has_pkid(pkid),
    {
        let n = self.entries.len();
        let mut i: usize = 0;
        while i < n
            invariant
                n == self.entries@.len(),
                i <= n,
                forall|k: int| 0 <= k < i ==> self.entries@[k].pkid != pkid,
            decreases n - i,
        {
            if self.entries[i].pkid == pkid {
                return true;
            }
            i = i + 1;
        }
        false
    }

    /// Records a newly sent request under its packet identifier.  A
    /// duplicate identifier is refused and leaves the table unchanged;
    /// otherwise the entry is appended behind every older one.
    pub fn insert(&mut self, pkid: u16, request: UserRequest) -> (accepted: bool)
        requires
            old(self).wf(),
        ensures
            final(self).wf(),
            accepted == !old(self).has_pkid(pkid),
            accepted ==> final(self).entries@ == old(self).entries@.push(
                Outstanding { pkid, request },
            ),
            !accepted ==> final(self).entries@ == old(self).entries@,
    {
        if self.contains(pkid) {
            false
        } else {
            self.entries.push(Outstanding { pkid, request });
            true
        }
    }

    /// Removes and returns the request matching an acknowledgment's packet
    /// identifier; `None` if nothing matches, which is the unsolicited
    /// case the reader treats as fatal.
    pub fn acknowledge(&mut self, pkid: u16) -> (r: Option<UserRequest>)
        requires
            old(self).wf(),
        ensures
            final(self).wf(),
            !old(self).has_pkid(pkid) ==> (r is None && final(self).entries@ == old(
                self,
            ).entries@),
            old(self).has_pkid(pkid) ==> (r matches Some(req) && exists|i: int|
                {
                    &&& 0 <= i < old(self).entries@.len()
                    &&& old(self).entries@[i].pkid == pkid
                    &&& req == old(self).entries@[i].request
                    &&& final(self).entries@ == old(self).entries@.remove(i)
                }),
            !final(self).has_pkid(pkid),
    {
        let n = self.entries.len();
        let mut i: usize = 0;
        while i < n
            invariant
                old(self).wf(),
                self.entries@ == old(self).entries@,
                n == self.entries@.len(),
                i <= n,
                forall|k: int| 0 <= k < i ==> self.entries@[k].pkid != pkid,
            decreases n - i,
        {
            if self.entries[i].pkid == pkid {
                let entry = self.entries.remove(i);
                proof {
                    assert forall|k: int|
                        0 <= k < self.entries@.len() implies self.entries@[k].pkid != pkid by {
                        if k < i {
                            assert(self.entries@[k] == old(self).entries@[k]);
                        } else {
                            assert(self.entries@[k] == old(self).entries@[k + 1]);
                        }
                    }
                }
                return Some(entry.request);
            }
            i = i + 1;
        }
        None
    }

    /// Empties the table on connection teardown, splitting the in-flight
    /// requests into those to requeue for resend after reconnection and
    /// those to fail back to their originators, each in send order.
    pub fn drain(&mut self) -> (r: (Vec<UserRequest>, Vec<UserRequest>))
        requires
            old(self).wf(),
        ensures
            final(self).wf(),
            final(self).entries@ =~= Seq::<Outstanding>::empty(),
            r.0@ == retry_part(old(self).entries@),
            r.1@ == fail_part(old(self).entries@),
    {
        let mut requeue: Vec<UserRequest> = Vec::new();
        let mut fail_back: Vec<UserRequest> = Vec::new();
        let ghost all = old(self).entries@;
        let n = self.entries.len();
        let mut i: usize = 0;
        while i < n
            invariant
                n == all.len(),
                i <= n,
                self.entries@ =~= all.subrange(i as int, n as int),
                requeue@ == retry_part(all.subrange(0, i as int)),
                fail_back@ == fail_part(all.subrange(0, i as int)),
            decreases n - i,
        {
            let ghost prefix = all.subrange(0, i as int);
            let entry = self.entries.remove(0);
            proof {
                assert(entry == all[i as int]);
                assert(self.entries@ =~= all.subrange(i + 1, n as int));
                assert(all.subrange(0, i + 1).drop_last() =~= prefix);
                assert(all.subrange(0, i + 1).last() == all[i as int]);
            }
            match entry.request {
                UserRequest::Subscribe(topics) => requeue.push(UserRequest::Subscribe(topics)),
                UserRequest::Unsubscribe(topics) => requeue.push(
                    UserRequest::Unsubscribe(topics),
                ),
                UserRequest::Ping => requeue.push(UserRequest::Ping),
                other => fail_back.push(other),
            }
            i = i + 1;
        }
        proof {
            assert(all.subrange(0, n as int) =~= all);
        }
        (requeue, fail_back)
    }
}

} // verus!
