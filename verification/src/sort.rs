//! The display order of the ticket list: a comparator for each sort key
//! and a sort that the renderer applies to its copy of the shown
//! partition. Storage order is never touched.

use vstd::prelude::*;
use crate::app::SortBy;
use crate::text::str_eq;
use crate::ticket::TicketView;
use crate::ticket::Tickets;

verus! {

/// The rank of a priority name for sorting: high before medium before low,
/// any unrecognised spelling last.
pub open spec fn priority_rank(p: Seq<char>) -> int {
    if p == "High"@ {
        0
    } else if p == "Medium"@ {
        1
    } else if p == "Low"@ {
        2
    } else {
        3
    }
}

/// Lexicographic order on character sequences, by code point; a prefix
/// comes before what it prefixes.
pub open spec fn lex_le(a: Seq<char>, b: Seq<char>) -> bool
    decreases a.len(),
{
    if a.len() == 0 {
        true
    } else if b.len() == 0 {
        false
    } else if a[0] == b[0] {
        lex_le(a.drop_first(), b.drop_first())
    } else {
        (a[0] as int) < (b[0] as int)
    }
}

/// Whether `a` may stand above `b` on the screen under the given key.
pub open spec fn sort_le(key: SortBy, a: TicketView, b: TicketView) -> bool {
    match key {
        SortBy::ID => a.id <= b.id,
        SortBy::Title => lex_le(a.title, b.title),
        SortBy::Priority => priority_rank(a.priority) <= priority_rank(b.priority),
        SortBy::Updated => a.updated_at <= b.updated_at,
    }
}

/// Each row may stand above the next one.
pub open spec fn sorted_by(key: SortBy, s: Seq<TicketView>) -> bool {
    forall|j: int| 0 <= j < s.len() - 1 ==> sort_le(key, #[trigger] s[j], s[j + 1])
}

/// The comparator is total: of any two tickets, one may stand above the
/// other.
pub proof fn lemma_sort_le_total(key: SortBy, a: TicketView, b: TicketView)
    ensures
        sort_le(key, a, b) || sort_le(key, b, a),
{
    match key {
        SortBy::Title => {
            lemma_lex_le_total(a.title, b.title);
        },
        _ => {},
    }
}

/// Lexicographic order is total.
proof fn lemma_lex_le_total(a: Seq<char>, b: Seq<char>)
    ensures
        lex_le(a, b) || lex_le(b, a),
    decreases a.len(),
{
    if a.len() > 0 && b.len() > 0 && a[0] == b[0] {
        lemma_lex_le_total(a.drop_first(), b.drop_first());
    }
}

/// Two sequences that agree on their first `i` characters compare as their
/// remainders do.
proof fn lemma_lex_le_skip(a: Seq<char>, b: Seq<char>, i: int)
    requires
        0 <= i <= a.len(),
        i <= b.len(),
        forall|j: int| 0 <= j < i ==> a[j] == b[j],
    ensures
        lex_le(a, b) == lex_le(a.skip(i), b.skip(i)),
    decreases i,
{
    if i > 0 {
        assert(a.drop_first() =~= a.skip(1));
        assert(b.drop_first() =~= b.skip(1));
        lemma_lex_le_skip(a.skip(1), b.skip(1), i - 1);
        assert(a.skip(1).skip(i - 1) =~= a.skip(i));
        assert(b.skip(1).skip(i - 1) =~= b.skip(i));
    } else {
        assert(a.skip(0) =~= a);
        assert(b.skip(0) =~= b);
    }
}

/// Compares two titles character by character.
fn lex_le_exec(a: &str, b: &str) -> (r: bool)
    ensures
        r == lex_le(a@, b@),
{
    let alen = a.unicode_len();
    let blen = b.unicode_len();
    let mut i: usize = 0;
    while i < alen && i < blen
        invariant
            alen == a@.len(),
            blen == b@.len(),
            i <= alen,
            i <= blen,
            forall|j: int| 0 <= j < i ==> a@[j] == b@[j],
        decreases alen - i,
    {
        let ca = a.get_char(i);
        let cb = b.get_char(i);
        if ca != cb {
            proof {
                lemma_lex_le_skip(a@, b@, i as int);
                assert(a@.skip(i as int)[0] == a@[i as int]);
                assert(b@.skip(i as int)[0] == b@[i as int]);
            }
            return (ca as u32) < (cb as u32);
        }
        i += 1;
    }
    proof {
        lemma_lex_le_skip(a@, b@, i as int);
    }
    alen <= blen
}

/// The rank of a ticket's priority, for the priority sort.
fn priority_rank_exec(t: &Tickets) -> (r: u8)
    ensures
        r as int == priority_rank(t@.priority),
{
    if str_eq(t.priority.as_str(), "High") {
        0
    } else if str_eq(t.priority.as_str(), "Medium") {
        1
    } else if str_eq(t.priority.as_str(), "Low") {
        2
    } else {
        3
    }
}

/// Whether `a` may stand above `b`, decided as [`sort_le`] says.
fn ticket_le(key: SortBy, a: &Tickets, b: &Tickets) -> (r: bool)
    ensures
        r == sort_le(key, a@, b@),
{
    match key {
        SortBy::ID => a.id <= b.id,
        SortBy::Title => lex_le_exec(a.title.as_str(), b.title.as_str()),
        SortBy::Priority => priority_rank_exec(a) <= priority_rank_exec(b),
        SortBy::Updated => a.updated_at <= b.updated_at,
    }
}

/// The shown partition in display order: the same tickets, sorted by the
/// given key with an insertion sort, which leaves the given storage order
/// untouched.
pub fn sort_for_display(tickets: &Vec<Tickets>, key: SortBy) -> (r: Vec<Tickets>)
    ensures
        r.deep_view().to_multiset() == tickets.deep_view().to_multiset(),
        sorted_by(key, r.deep_view()),
{
    broadcast use vstd::seq_lib::group_to_multiset_ensures;

    let mut r: Vec<Tickets> = Vec::new();
    let mut i: usize = 0;
    while i < tickets.len()
        invariant
            i <= tickets.len(),
            r.deep_view().to_multiset() == tickets.deep_view().take(i as int).to_multiset(),
            sorted_by(key, r.deep_view()),
        decreases tickets.len() - i,
    {
        let ghost prefix = tickets.deep_view().take(i as int);
        let t = tickets[i].clone();
        proof {
            assert(tickets.deep_view().take(i + 1).drop_last() =~= prefix);
            assert(tickets.deep_view().take(i + 1).last() == t@);
            assert(tickets.deep_view().take(i + 1) =~= prefix.push(t@));
        }
        insert_in_order(&mut r, t, key);
        proof {
            vstd::seq_lib::to_multiset_build(prefix, tickets.deep_view()[i as int]);
            assert(prefix.push(tickets.deep_view()[i as int]).to_multiset() =~= prefix.to_multiset()
                .insert(tickets.deep_view()[i as int]));
        }
        i += 1;
    }
    proof {
        assert(tickets.deep_view().take(tickets.len() as int) =~= tickets.deep_view());
    }
    r
}

/// Puts one ticket where it belongs in an already sorted list.
fn insert_in_order(r: &mut Vec<Tickets>, t: Tickets, key: SortBy)
    requires
        sorted_by(key, old(r).deep_view()),
    ensures
        final(r).deep_view().to_multiset() == old(r).deep_view().to_multiset().insert(t@),
        sorted_by(key, final(r).deep_view()),
{
    broadcast use vstd::seq_lib::group_to_multiset_ensures;

    let ghost pre = r.deep_view();
    let mut pos: usize = 0;
    while pos < r.len() && !ticket_le(key, &t, &r[pos])
        invariant
            pos <= r.len(),
            r.deep_view() == pre,
            sorted_by(key, pre),
            forall|j: int| 0 <= j < pos ==> sort_le(key, #[trigger] pre[j], t@),
        decreases r.len() - pos,
    {
        proof {
            lemma_sort_le_total(key, t@, pre[pos as int]);
        }
        pos += 1;
    }
    r.insert(pos, t);
    proof {
        assert(r.deep_view() =~= pre.insert(pos as int, t@));
        assert(pre.insert(pos as int, t@).to_multiset() == pre.to_multiset().insert(t@));
        assert forall|j: int| 0 <= j < r.deep_view().len() - 1 implies sort_le(
            key,
            #[trigger] r.deep_view()[j],
            r.deep_view()[j + 1],
        ) by {
            let s = pre.insert(pos as int, t@);
            if j + 1 < pos {
                assert(s[j] == pre[j]);
                assert(s[j + 1] == pre[j + 1]);
            } else if j + 1 == pos {
                assert(s[j] == pre[j]);
                assert(s[j + 1] == t@);
            } else if j == pos {
                assert(s[j] == t@);
                assert(s[j + 1] == pre[j]);
            } else {
                assert(s[j] == pre[j - 1]);
                assert(s[j + 1] == pre[j]);
            }
        };
    }
}

} // verus!
