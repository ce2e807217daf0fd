//! The ticket store's rules: how the full collection splits into the open
//! and closed partitions, and how fresh ids are allocated. Reading and
//! writing the backing file is the surrounding application's job; every
//! function here works on a collection that is already in memory.

use vstd::prelude::*;
use crate::ticket::TicketStatus;
use crate::ticket::TicketView;
use crate::ticket::Tickets;

verus! {

/// Why the backing file could not be used.
#[derive(Clone, Copy, Debug, PartialEq, Eq, Structural)]
pub enum Error {
    /// The file could not be read or written.
    StorageUnavailable,
    /// The file's contents do not parse as a ticket collection.
    CorruptData,
}

impl Error {
    /// A short description, fit for the message banner.
    pub fn message(&self) -> (r: &str)
        ensures
            *self is StorageUnavailable ==> r@ == "Storage unavailable"@,
            *self is CorruptData ==> r@ == "Ticket data is corrupt"@,
    {
        match self {
            Error::StorageUnavailable => "Storage unavailable",
            Error::CorruptData => "Ticket data is corrupt",
        }
    }
}

/// The predicate that keeps the open tickets.
pub open spec fn is_open_pred() -> spec_fn(TicketView) -> bool {
    |t: TicketView| t.status is Open
}

/// The predicate that keeps the closed tickets.
pub open spec fn is_closed_pred() -> spec_fn(TicketView) -> bool {
    |t: TicketView| t.status is Closed
}

/// The open tickets of a collection, in their original order.
pub open spec fn open_of(s: Seq<TicketView>) -> Seq<TicketView> {
    s.filter(is_open_pred())
}

/// The closed tickets of a collection, in their original order.
pub open spec fn closed_of(s: Seq<TicketView>) -> Seq<TicketView> {
    s.filter(is_closed_pred())
}

/// The largest id in the collection, at least 0 even when the collection is
/// empty or holds only negative ids.
pub open spec fn max_id_of(s: Seq<TicketView>) -> int
    decreases s.len(),
{
    if s.len() == 0 {
        0
    } else {
        let m = max_id_of(s.drop_last());
        if s.last().id > m {
            s.last().id
        } else {
            m
        }
    }
}

/// The id the store hands to the next created ticket: one past the largest
/// id present, and so always at least 1.
pub open spec fn next_id_of(s: Seq<TicketView>) -> int {
    max_id_of(s) + 1
}

/// The tickets of `all` whose status is `status`, in their original order.
fn filter_tickets(all: &Vec<Tickets>, status: TicketStatus) -> (r: Vec<Tickets>)
    ensures
        status is Open ==> r.deep_view() == open_of(all.deep_view()),
        status is Closed ==> r.deep_view() == closed_of(all.deep_view()),
{
    let ghost pred = is_open_pred();
    let ghost predc = is_closed_pred();
    let mut r: Vec<Tickets> = Vec::new();
    let mut i: usize = 0;
    while i < all.len()
        invariant
            i <= all.len(),
            pred == is_open_pred(),
            predc == is_closed_pred(),
            status is Open ==> r.deep_view() == all.deep_view().take(i as int).filter(pred),
            status is Closed ==> r.deep_view() == all.deep_view().take(i as int).filter(predc),
        decreases all.len() - i,
    {
        let ghost s = all.deep_view();
        let ghost x = s[i as int];
        proof {
            assert(s.take(i + 1) =~= s.take(i as int).push(x));
            s.take(i as int).lemma_filter_push(x, pred);
            s.take(i as int).lemma_filter_push(x, predc);
        }
        let ghost r_old = r.deep_view();
        let keep = match (&all[i].status, &status) {
            (TicketStatus::Open, TicketStatus::Open) => true,
            (TicketStatus::Closed, TicketStatus::Closed) => true,
            _ => false,
        };
        if keep {
            let t = all[i].clone();
            r.push(t);
            proof {
                assert(r.deep_view() =~= r_old.push(x));
            }
        }
        i += 1;
    }
    proof {
        assert(all.deep_view().take(all.len() as int) =~= all.deep_view());
    }
    r
}

/// The open partition of the collection, in storage order.
pub fn get_open_tickets(all: &Vec<Tickets>) -> (r: Vec<Tickets>)
    ensures
        r.deep_view() == open_of(all.deep_view()),
{
    filter_tickets(all, TicketStatus::Open)
}

/// The closed partition of the collection, in storage order.
pub fn get_closed_tickets(all: &Vec<Tickets>) -> (r: Vec<Tickets>)
    ensures
        r.deep_view() == closed_of(all.deep_view()),
{
    filter_tickets(all, TicketStatus::Closed)
}

/// The id for a ticket created against this collection.
pub fn next_id(all: &Vec<Tickets>) -> (r: i32)
    requires
        max_id_of(all.deep_view()) < i32::MAX,
    ensures
        r == next_id_of(all.deep_view()),
        r >= 1,
{
    proof {
        lemma_max_id_nonneg(all.deep_view());
        assert(all.deep_view().take(0) =~= Seq::<TicketView>::empty());
    }
    let mut max: i32 = 0;
    let mut i: usize = 0;
    while i < all.len()
        invariant
            i <= all.len(),
            max == max_id_of(all.deep_view().take(i as int)),
            max_id_of(all.deep_view()) < i32::MAX,
            max_id_of(all.deep_view()) >= 0,
            max <= max_id_of(all.deep_view()),
        decreases all.len() - i,
    {
        proof {
            assert(all.deep_view().take(i + 1).drop_last() =~= all.deep_view().take(i as int));
            lemma_max_id_take_bound(all.deep_view(), i + 1);
        }
        if all[i].id > max {
            max = all[i].id;
        }
        i += 1;
    }
    proof {
        assert(all.deep_view().take(all.len() as int) =~= all.deep_view());
    }
    max + 1
}

/// Law: partitioning is complete. A ticket value of the collection stands
/// in a partition exactly when its status selects that partition, and the
/// two partitions together are as long as the collection, so every record
/// is accounted for exactly once.
pub proof fn lemma_partition_complete(s: Seq<TicketView>)
    ensures
        forall|t: TicketView| #[trigger] open_of(s).contains(t) <==> s.contains(t) && t.status is Open,
        forall|t: TicketView|
            #[trigger] closed_of(s).contains(t) <==> s.contains(t) && t.status is Closed,
        open_of(s).len() + closed_of(s).len() == s.len(),
{
    lemma_partition_len(s);
    assert forall|t: TicketView| #[trigger] open_of(s).contains(t) implies s.contains(t)
        && t.status is Open by {
        s.lemma_filter_contains_rev(is_open_pred(), t);
    };
    assert forall|t: TicketView| s.contains(t) && t.status is Open implies open_of(s).contains(
        t,
    ) by {
        let i = choose|i: int| 0 <= i < s.len() && s[i] == t;
        s.lemma_filter_contains(is_open_pred(), i);
    };
    assert forall|t: TicketView| #[trigger] closed_of(s).contains(t) implies s.contains(t)
        && t.status is Closed by {
        s.lemma_filter_contains_rev(is_closed_pred(), t);
    };
    assert forall|t: TicketView| s.contains(t) && t.status is Closed implies closed_of(s).contains(
        t,
    ) by {
        let i = choose|i: int| 0 <= i < s.len() && s[i] == t;
        s.lemma_filter_contains(is_closed_pred(), i);
    };
}

/// The two partitions together hold as many tickets as the collection.
proof fn lemma_partition_len(s: Seq<TicketView>)
    ensures
        open_of(s).len() + closed_of(s).len() == s.len(),
    decreases s.len(),
{
    reveal(Seq::filter);
    if s.len() > 0 {
        lemma_partition_len(s.drop_last());
    }
}

/// Each partition holds only tickets of its own status.
pub proof fn lemma_partitions_pure(s: Seq<TicketView>)
    ensures
        forall|j: int| 0 <= j < open_of(s).len() ==> (#[trigger] open_of(s)[j]).status is Open,
        forall|j: int| 0 <= j < closed_of(s).len() ==> (#[trigger] closed_of(s)[j]).status is Closed,
{
    assert forall|j: int| 0 <= j < open_of(s).len() implies (#[trigger] open_of(s)[j]).status
        is Open by {
        s.lemma_filter_pred(is_open_pred(), j);
    };
    assert forall|j: int| 0 <= j < closed_of(s).len() implies (#[trigger] closed_of(s)[j]).status
        is Closed by {
        s.lemma_filter_pred(is_closed_pred(), j);
    };
}

/// Law: re-deriving the partitions from the persisted collection — the
/// open partition followed by the closed one — gives those partitions
/// back, so the read-through refresh after a save reproduces the state
/// that was saved.
pub proof fn lemma_refresh_identity(open: Seq<TicketView>, closed: Seq<TicketView>)
    requires
        forall|j: int| 0 <= j < open.len() ==> (#[trigger] open[j]).status is Open,
        forall|j: int| 0 <= j < closed.len() ==> (#[trigger] closed[j]).status is Closed,
    ensures
        open_of(open + closed) == open,
        closed_of(open + closed) == closed,
{
    Seq::filter_distributes_over_add(open, closed, is_open_pred());
    Seq::filter_distributes_over_add(open, closed, is_closed_pred());
    lemma_filter_all_true(open, is_open_pred());
    lemma_filter_all_false(closed, is_open_pred());
    lemma_filter_all_false(open, is_closed_pred());
    lemma_filter_all_true(closed, is_closed_pred());
    assert(open_of(open + closed) =~= open);
    assert(closed_of(open + closed) =~= closed);
}

/// Filtering keeps a sequence whose members all pass.
proof fn lemma_filter_all_true(s: Seq<TicketView>, pred: spec_fn(TicketView) -> bool)
    requires
        forall|j: int| 0 <= j < s.len() ==> pred(#[trigger] s[j]),
    ensures
        s.filter(pred) == s,
    decreases s.len(),
{
    reveal(Seq::filter);
    if s.len() > 0 {
        assert(forall|j: int| 0 <= j < s.drop_last().len() ==> #[trigger] s.drop_last()[j] == s[j]);
        lemma_filter_all_true(s.drop_last(), pred);
        assert(s.filter(pred) =~= s);
    }
}

/// Filtering empties a sequence none of whose members pass.
proof fn lemma_filter_all_false(s: Seq<TicketView>, pred: spec_fn(TicketView) -> bool)
    requires
        forall|j: int| 0 <= j < s.len() ==> !pred(#[trigger] s[j]),
    ensures
        s.filter(pred) == Seq::<TicketView>::empty(),
    decreases s.len(),
{
    reveal(Seq::filter);
    if s.len() > 0 {
        assert(forall|j: int| 0 <= j < s.drop_last().len() ==> #[trigger] s.drop_last()[j] == s[j]);
        lemma_filter_all_false(s.drop_last(), pred);
    } else {
        assert(s.filter(pred) =~= Seq::<TicketView>::empty());
    }
}

/// No two tickets at different places of the collection share an id.
pub open spec fn unique_ids(s: Seq<TicketView>) -> bool {
    forall|i: int, j: int| 0 <= i < j < s.len() ==> s[i].id != s[j].id
}

/// Law: the id the store would assign next is strictly greater than every
/// id already present, so a created ticket can never collide with one that
/// still exists.
pub proof fn lemma_next_id_fresh(s: Seq<TicketView>)
    ensures
        forall|i: int| 0 <= i < s.len() ==> #[trigger] s[i].id < next_id_of(s),
        next_id_of(s) >= 1,
    decreases s.len(),
{
    lemma_max_id_nonneg(s);
    if s.len() > 0 {
        lemma_next_id_fresh(s.drop_last());
        assert forall|i: int| 0 <= i < s.len() implies #[trigger] s[i].id < next_id_of(s) by {
            if i < s.len() - 1 {
                assert(s.drop_last()[i] == s[i]);
                assert(max_id_of(s.drop_last()) <= max_id_of(s));
            }
        };
    }
}

/// Law: appending a ticket stamped with the store's next id keeps all ids
/// distinct.
pub proof fn lemma_create_preserves_unique_ids(s: Seq<TicketView>, t: TicketView)
    requires
        unique_ids(s),
        t.id == next_id_of(s),
    ensures
        unique_ids(s.push(t)),
{
    lemma_next_id_fresh(s);
    assert forall|i: int, j: int| 0 <= i < j < s.push(t).len() implies s.push(t)[i].id != s.push(
        t,
    )[j].id by {
        if j == s.len() {
            assert(s.push(t)[i] == s[i]);
        } else {
            assert(s.push(t)[i] == s[i]);
            assert(s.push(t)[j] == s[j]);
        }
    };
}

/// Law: deleting a ticket keeps all ids distinct.
pub proof fn lemma_delete_preserves_unique_ids(s: Seq<TicketView>, i: int)
    requires
        unique_ids(s),
        0 <= i < s.len(),
    ensures
        unique_ids(s.remove(i)),
{
    assert forall|j: int, k: int| 0 <= j < k < s.remove(i).len() implies s.remove(i)[j].id
        != s.remove(i)[k].id by {
        let j0 = if j < i {
            j
        } else {
            j + 1
        };
        let k0 = if k < i {
            k
        } else {
            k + 1
        };
        assert(s.remove(i)[j] == s[j0]);
        assert(s.remove(i)[k] == s[k0]);
    };
}

/// `max_id_of` is never negative, whatever ids the collection holds.
proof fn lemma_max_id_nonneg(s: Seq<TicketView>)
    ensures
        max_id_of(s) >= 0,
    decreases s.len(),
{
    if s.len() > 0 {
        lemma_max_id_nonneg(s.drop_last());
    }
}

/// `max_id_of` over a prefix never exceeds `max_id_of` over the whole.
proof fn lemma_max_id_take_bound(s: Seq<TicketView>, n: int)
    requires
        0 <= n <= s.len(),
    ensures
        max_id_of(s.take(n)) <= max_id_of(s),
    decreases s.len() - n,
{
    if n == s.len() {
        assert(s.take(n) =~= s);
    } else {
        lemma_max_id_take_bound(s, n + 1);
        assert(s.take(n + 1).drop_last() =~= s.take(n));
    }
}

} // verus!
