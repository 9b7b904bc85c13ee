//! The peers of a session and what is known of each.
//!
//! The table keeps one entry for each peer that was ever reported, in the
//! order in which the peers were first seen. A later report on a peer changes
//! its entry where it stands.

use vstd::prelude::*;
use crate::glue::{PeerState, PeerUUID};

verus! {

/// Whether a peer is connected.
#[derive(Debug, Clone, Copy, PartialEq, Eq, Structural)]
pub enum PeerStatus {
    Connected,
    Disconnected,
}

/// What is known of one peer.
#[derive(Debug, Clone, Copy, PartialEq, Eq, Structural)]
pub struct PeerEntry {
    pub id: PeerUUID,
    pub status: PeerStatus,
}

/// The place of the first entry for `id`, if there is one.
pub open spec fn position(entries: Seq<PeerEntry>, id: PeerUUID) -> Option<int>
    decreases entries.len(),
{
    if entries.len() == 0 {
        None
    } else {
        match position(entries.drop_last(), id) {
            Some(at) => Some(at),
            None => if entries.last().id == id {
                Some(entries.len() - 1)
            } else {
                None
            },
        }
    }
}

/// No peer has two entries.
pub open spec fn distinct(entries: Seq<PeerEntry>) -> bool {
    forall|i: int, j: int|
        0 <= i < j < entries.len() ==> (#[trigger] entries[i]).id != (#[trigger] entries[j]).id
}

/// The entries after a report on `id`: its entry holds the new status where
/// there was one, else a new entry stands behind the others.
pub open spec fn record(entries: Seq<PeerEntry>, id: PeerUUID, status: PeerStatus) -> Seq<
    PeerEntry,
> {
    match position(entries, id) {
        Some(at) => entries.update(at, PeerEntry { id, status }),
        None => entries.push(PeerEntry { id, status }),
    }
}

/// The peers with the status `status`, in the order of their entries.
pub open spec fn ids_with(entries: Seq<PeerEntry>, status: PeerStatus) -> Seq<PeerUUID>
    decreases entries.len(),
{
    if entries.len() == 0 {
        Seq::empty()
    } else if entries.last().status == status {
        ids_with(entries.drop_last(), status).push(entries.last().id)
    } else {
        ids_with(entries.drop_last(), status)
    }
}

/// What `position` finds is the first entry of the peer, and it finds one
/// wherever the peer has an entry.
pub proof fn lemma_position(entries: Seq<PeerEntry>, id: PeerUUID)
    ensures
        match position(entries, id) {
            Some(at) => 0 <= at < entries.len() && entries[at].id == id && forall|i: int|
                0 <= i < at ==> (#[trigger] entries[i]).id != id,
            None => forall|i: int| 0 <= i < entries.len() ==> (#[trigger] entries[i]).id != id,
        },
    decreases entries.len(),
{
    if entries.len() > 0 {
        let front = entries.drop_last();
        lemma_position(front, id);
        match position(front, id) {
            Some(at) => {
                assert forall|i: int| 0 <= i < at implies (#[trigger] entries[i]).id != id by {
                    assert(front[i].id != id);
                }
                assert(entries[at] == front[at]);
            },
            None => {
                assert forall|i: int| 0 <= i < entries.len() - 1 implies (#[trigger] entries[i]).id
                    != id by {
                    assert(front[i].id != id);
                }
            },
        }
    }
}

/// A report keeps the entries distinct, keeps every other peer where and as
/// it was, and leaves the peer with the status reported.
pub proof fn lemma_record(entries: Seq<PeerEntry>, id: PeerUUID, status: PeerStatus)
    requires
        distinct(entries),
    ensures
        distinct(record(entries, id, status)),
        position(record(entries, id, status), id) is Some,
        record(entries, id, status)[position(record(entries, id, status), id).unwrap()].status
            == status,
        forall|i: int|
            0 <= i < entries.len() && (#[trigger] entries[i]).id != id ==> record(
                entries,
                id,
                status,
            )[i] == entries[i],
        record(entries, id, status).len() == if position(entries, id) is Some {
            entries.len()
        } else {
            entries.len() + 1
        },
{
    let after = record(entries, id, status);
    lemma_position(entries, id);
    lemma_position(after, id);
    match position(entries, id) {
        Some(at) => {
            assert(after[at].id == id);
            assert forall|i: int, j: int| 0 <= i < j < after.len() implies (#[trigger] after[i]).id
                != (#[trigger] after[j]).id by {
                assert(entries[i].id != entries[j].id);
            }
            let found = position(after, id).unwrap();
            if found != at {
                if found < at {
                    assert(entries[found].id != entries[at].id);
                } else {
                    assert(entries[at].id != entries[found].id);
                }
            }
        },
        None => {
            assert(after[entries.len() as int].id == id);
            assert forall|i: int, j: int| 0 <= i < j < after.len() implies (#[trigger] after[i]).id
                != (#[trigger] after[j]).id by {
                if j < entries.len() {
                    assert(entries[i].id != entries[j].id);
                } else {
                    assert(entries[i].id != id);
                }
            }
            let found = position(after, id).unwrap();
            if found < entries.len() {
                assert(entries[found].id != id);
            }
        },
    }
}

/// What the entries say of the peer `id`: nothing, where it has no entry.
pub open spec fn status_in(entries: Seq<PeerEntry>, id: PeerUUID) -> Option<PeerStatus> {
    match position(entries, id) {
        Some(at) => Some(entries[at].status),
        None => None,
    }
}

/// The first entry of a peer is where `position` finds it.
pub proof fn lemma_position_is_first(entries: Seq<PeerEntry>, id: PeerUUID, at: int)
    requires
        0 <= at < entries.len(),
        entries[at].id == id,
        forall|i: int| 0 <= i < at ==> (#[trigger] entries[i]).id != id,
    ensures
        position(entries, id) == Some(at),
{
    lemma_position(entries, id);
    let found = position(entries, id);
    if found is Some {
        let p = found.unwrap();
        if p < at {
            assert(entries[p].id != id);
        } else if at < p {
            assert(entries[at].id != id);
        }
    } else {
        assert(entries[at].id != id);
    }
}

/// After a report on a peer the table says of that peer what was reported,
/// and of every other peer what it said before.
pub proof fn lemma_record_status(
    entries: Seq<PeerEntry>,
    id: PeerUUID,
    status: PeerStatus,
    other: PeerUUID,
)
    ensures
        status_in(record(entries, id, status), other) == if other == id {
            Some(status)
        } else {
            status_in(entries, other)
        },
{
    let after = record(entries, id, status);
    lemma_position(entries, id);
    lemma_position(entries, other);
    match position(entries, id) {
        Some(at) => {
            assert forall|i: int| 0 <= i < after.len() implies (#[trigger] after[i]).id
                == entries[i].id by {}
            match position(entries, other) {
                Some(p) => {
                    assert(after[p].id == other);
                    assert forall|i: int| 0 <= i < p implies (#[trigger] after[i]).id != other by {
                        assert(entries[i].id != other);
                    }
                    lemma_position_is_first(after, other, p);
                    if other == id {
                        assert(p == at);
                    } else {
                        assert(p != at);
                    }
                },
                None => {
                    lemma_position(after, other);
                    if position(after, other) is Some {
                        let q = position(after, other).unwrap();
                        assert(entries[q].id != other);
                    }
                },
            }
        },
        None => {
            let last = entries.len() as int;
            assert(after[last].id == id);
            assert forall|i: int| 0 <= i < last implies (#[trigger] after[i]) == entries[i] by {}
            if other == id {
                assert forall|i: int| 0 <= i < last implies (#[trigger] after[i]).id != id by {
                    assert(entries[i].id != id);
                }
                lemma_position_is_first(after, id, last);
            } else {
                match position(entries, other) {
                    Some(p) => {
                        assert(after[p].id == other);
                        assert forall|i: int| 0 <= i < p implies (#[trigger] after[i]).id
                            != other by {
                            assert(entries[i].id != other);
                        }
                        lemma_position_is_first(after, other, p);
                    },
                    None => {
                        lemma_position(after, other);
                        if position(after, other) is Some {
                            let q = position(after, other).unwrap();
                            if q < last {
                                assert(entries[q].id != other);
                            }
                        }
                    },
                }
            }
        },
    }
}

/// With distinct entries, a peer is in the list of a status exactly if that
/// is what the table says of it.
pub proof fn lemma_list_holds_the_peers_of_a_status(
    entries: Seq<PeerEntry>,
    status: PeerStatus,
    id: PeerUUID,
)
    requires
        distinct(entries),
    ensures
        ids_with(entries, status).contains(id) <==> status_in(entries, id) == Some(status),
{
    lemma_ids_with_holds(entries, status, id);
    lemma_position(entries, id);
    if ids_with(entries, status).contains(id) {
        let i = choose|i: int|
            0 <= i < entries.len() && #[trigger] entries[i] == (PeerEntry { id, status });
        let at = position(entries, id).unwrap();
        if at < i {
            assert(entries[at].id != entries[i].id);
        } else if i < at {
            assert(entries[i].id != entries[at].id);
        }
    }
    if status_in(entries, id) == Some(status) {
        let at = position(entries, id).unwrap();
        assert(entries[at] == (PeerEntry { id, status }));
    }
}

/// A peer is in the list of a status exactly if it has an entry with that
/// status.
pub proof fn lemma_ids_with_holds(entries: Seq<PeerEntry>, status: PeerStatus, id: PeerUUID)
    ensures
        ids_with(entries, status).contains(id) <==> exists|i: int|
            0 <= i < entries.len() && #[trigger] entries[i] == (PeerEntry { id, status }),
        ids_with(entries, status).len() <= entries.len(),
    decreases entries.len(),
{
    let list = ids_with(entries, status);
    if entries.len() > 0 {
        let front = entries.drop_last();
        let rest = ids_with(front, status);
        lemma_ids_with_holds(front, status, id);
        if list.contains(id) {
            let at = choose|k: int| 0 <= k < list.len() && list[k] == id;
            if entries.last().status == status && at == rest.len() {
                assert(entries[entries.len() - 1] == (PeerEntry { id, status }));
            } else {
                assert(rest[at] == id);
                assert(rest.contains(id));
                let i = choose|i: int|
                    0 <= i < front.len() && #[trigger] front[i] == (PeerEntry { id, status });
                assert(entries[i] == (PeerEntry { id, status }));
            }
        }
        if exists|i: int| 0 <= i < entries.len() && #[trigger] entries[i] == (PeerEntry { id, status }) {
            let i = choose|i: int|
                0 <= i < entries.len() && #[trigger] entries[i] == (PeerEntry { id, status });
            if i == entries.len() - 1 {
                assert(list[rest.len() as int] == id);
            } else {
                assert(front[i] == (PeerEntry { id, status }));
                assert(rest.contains(id));
                let k = choose|k: int| 0 <= k < rest.len() && rest[k] == id;
                assert(list[k] == id);
            }
        }
    }
}

/// The two lists of a frame part the peers between them: each peer of the
/// table is in one of them, and with distinct entries in no more than one.
pub proof fn lemma_lists_part_the_peers(entries: Seq<PeerEntry>, id: PeerUUID)
    requires
        distinct(entries),
    ensures
        ids_with(entries, PeerStatus::Connected).len() + ids_with(
            entries,
            PeerStatus::Disconnected,
        ).len() == entries.len(),
        position(entries, id) is Some <==> ids_with(entries, PeerStatus::Connected).contains(id)
            || ids_with(entries, PeerStatus::Disconnected).contains(id),
        !(ids_with(entries, PeerStatus::Connected).contains(id) && ids_with(
            entries,
            PeerStatus::Disconnected,
        ).contains(id)),
{
    lemma_lengths_add_up(entries);
    lemma_position(entries, id);
    lemma_ids_with_holds(entries, PeerStatus::Connected, id);
    lemma_ids_with_holds(entries, PeerStatus::Disconnected, id);
    let connected = PeerEntry { id, status: PeerStatus::Connected };
    let disconnected = PeerEntry { id, status: PeerStatus::Disconnected };
    if position(entries, id) is Some {
        let at = position(entries, id).unwrap();
        assert(entries[at] == connected || entries[at] == disconnected);
    }
    if ids_with(entries, PeerStatus::Connected).contains(id) && ids_with(
        entries,
        PeerStatus::Disconnected,
    ).contains(id) {
        let i = choose|i: int| 0 <= i < entries.len() && #[trigger] entries[i] == connected;
        let j = choose|j: int| 0 <= j < entries.len() && #[trigger] entries[j] == disconnected;
        if i < j {
            assert(entries[i].id != entries[j].id);
        } else if j < i {
            assert(entries[j].id != entries[i].id);
        }
    }
}

/// The two lists have as many peers as the table has entries.
proof fn lemma_lengths_add_up(entries: Seq<PeerEntry>)
    ensures
        ids_with(entries, PeerStatus::Connected).len() + ids_with(
            entries,
            PeerStatus::Disconnected,
        ).len() == entries.len(),
    decreases entries.len(),
{
    if entries.len() > 0 {
        lemma_lengths_add_up(entries.drop_last());
    }
}

/// The peers of a session.
pub struct PeerTable {
    entries: Vec<PeerEntry>,
}

impl View for PeerTable {
    type V = Seq<PeerEntry>;

    closed spec fn view(&self) -> Seq<PeerEntry> {
        self.entries@
    }
}

impl PeerTable {
    /// No peer has two entries.
    pub open spec fn wf(&self) -> bool {
        distinct(self@)
    }

    /// A table without peers.
    pub fn new() -> (table: PeerTable)
        ensures
            table.wf(),
            table@ == Seq::<PeerEntry>::empty(),
    {
        PeerTable { entries: Vec::new() }
    }

    /// The number of peers that were ever reported.
    pub fn len(&self) -> (n: usize)
        ensures
            n == self@.len(),
    {
        self.entries.len()
    }

    /// The place of the entry of `id`.
    fn find(&self, id: PeerUUID) -> (at: Option<usize>)
        ensures
            at is Some <==> position(self@, id) is Some,
            at is Some ==> at.unwrap() == position(self@, id).unwrap() && at.unwrap() < self@.len(),
    {
        let mut i: usize = 0;
        while i < self.entries.len()
            invariant
                i <= self.entries@.len(),
                position(self.entries@.take(i as int), id) is None,
            decreases self.entries@.len() - i,
        {
            proof {
                assert(self.entries@.take(i + 1).drop_last() =~= self.entries@.take(i as int));
            }
            if self.entries[i].id == id {
                proof {
                    lemma_position_of_prefix(self.entries@, id, i + 1);
                }
                return Some(i);
            }
            i = i + 1;
        }
        proof {
            assert(self.entries@.take(i as int) =~= self.entries@);
        }
        None
    }

    /// What is known of the peer `id`: nothing, where it was never reported.
    pub fn status_of(&self, id: PeerUUID) -> (status: Option<PeerStatus>)
        ensures
            status == match position(self@, id) {
                Some(at) => Some(self@[at].status),
                None => None,
            },
    {
        match self.find(id) {
            Some(at) => Some(self.entries[at].status),
            None => None,
        }
    }

    /// Takes in a report on the peer `id`.
    pub fn record(&mut self, id: PeerUUID, status: PeerStatus)
        requires
            old(self).wf(),
        ensures
            final(self).wf(),
            final(self)@ == record(old(self)@, id, status),
    {
        proof {
            lemma_record(self@, id, status);
        }
        match self.find(id) {
            Some(at) => {
                self.entries.set(at, PeerEntry { id, status });
            },
            None => {
                self.entries.push(PeerEntry { id, status });
            },
        }
    }

    /// The peers as they are handed to the managed runtime: the connected
    /// ones and the disconnected ones, each list in the order in which the
    /// peers were first seen.
    pub fn snapshot(&self) -> (state: PeerState)
        ensures
            state.connected@ == ids_with(self@, PeerStatus::Connected),
            state.disconnected@ == ids_with(self@, PeerStatus::Disconnected),
    {
        let mut connected: Vec<PeerUUID> = Vec::new();
        let mut disconnected: Vec<PeerUUID> = Vec::new();
        let mut i: usize = 0;
        while i < self.entries.len()
            invariant
                i <= self.entries@.len(),
                connected@ == ids_with(self.entries@.take(i as int), PeerStatus::Connected),
                disconnected@ == ids_with(self.entries@.take(i as int), PeerStatus::Disconnected),
            decreases self.entries@.len() - i,
        {
            proof {
                assert(self.entries@.take(i + 1).drop_last() =~= self.entries@.take(i as int));
            }
            let entry = self.entries[i];
            match entry.status {
                PeerStatus::Connected => connected.push(entry.id),
                PeerStatus::Disconnected => disconnected.push(entry.id),
            }
            i = i + 1;
        }
        proof {
            assert(self.entries@.take(i as int) =~= self.entries@);
        }
        PeerState { connected, disconnected }
    }
}

/// Where a prefix of the entries holds the peer, that is where the first
/// entry of the peer is.
proof fn lemma_position_of_prefix(entries: Seq<PeerEntry>, id: PeerUUID, n: int)
    requires
        0 <= n <= entries.len(),
        position(entries.take(n), id) is Some,
    ensures
        position(entries, id) == position(entries.take(n), id),
    decreases entries.len() - n,
{
    if n < entries.len() {
        assert(entries.take(n + 1).drop_last() =~= entries.take(n));
        lemma_position_of_prefix(entries, id, n + 1);
    } else {
        assert(entries.take(n) =~= entries);
    }
}

} // verus!
