//! The ordering of filtered sessions: a stable ascending sort by the raw
//! show-time text, compared lexicographically (not as parsed times).
use vstd::prelude::*;
use vstd::multiset::Multiset;
use crate::lex::lemma_lex_total;
use crate::lex::lemma_lex_trans;
use crate::lex::lex_le;
use crate::lex::str_lex_le;
use crate::schedule::Session;
use crate::schedule::SessionView;
use crate::schedule::session_views;

verus! {

broadcast use vstd::seq_lib::group_to_multiset_ensures;

/// The sort key of a session: its raw show-time text.
pub open spec fn time_key(s: SessionView) -> Seq<char> {
    s.show_time_clt
}

/// Ascending lexicographic order of the keys.
pub open spec fn time_sorted(s: Seq<SessionView>) -> bool {
    forall|i: int, j: int| 0 <= i < j < s.len() ==> lex_le(time_key(s[i]), time_key(s[j]))
}

/// The session placed after every element whose key is at most its own, and
/// before every element whose key is greater.
pub open spec fn insert_ordered(s: Seq<SessionView>, x: SessionView) -> Seq<SessionView>
    decreases s.len(),
{
    if s.len() == 0 {
        seq![x]
    } else if lex_le(time_key(s.last()), time_key(x)) {
        s.push(x)
    } else {
        insert_ordered(s.drop_last(), x).push(s.last())
    }
}

/// The stable ascending sort by raw show-time text: the sessions inserted
/// in input order, each after all earlier ones whose key is at most its
/// own.
pub open spec fn sorted_by_time(s: Seq<SessionView>) -> Seq<SessionView>
    decreases s.len(),
{
    if s.len() == 0 {
        Seq::empty()
    } else {
        insert_ordered(sorted_by_time(s.drop_last()), s.last())
    }
}

/// The subsequence of sessions carrying one given key, in order.
pub open spec fn with_key(s: Seq<SessionView>, k: Seq<char>) -> Seq<SessionView>
    decreases s.len(),
{
    if s.len() == 0 {
        Seq::empty()
    } else if time_key(s.last()) == k {
        with_key(s.drop_last(), k).push(s.last())
    } else {
        with_key(s.drop_last(), k)
    }
}

proof fn lemma_insert_ordered_len(s: Seq<SessionView>, x: SessionView)
    ensures
        insert_ordered(s, x).len() == s.len() + 1,
    decreases s.len(),
{
    if s.len() > 0 && !lex_le(time_key(s.last()), time_key(x)) {
        lemma_insert_ordered_len(s.drop_last(), x);
    }
}

proof fn lemma_insert_ordered_elems(s: Seq<SessionView>, x: SessionView)
    ensures
        forall|m: int|
            0 <= m < insert_ordered(s, x).len() ==> #[trigger] insert_ordered(s, x)[m] == x || (
            exists|n: int| 0 <= n < s.len() && s[n] == insert_ordered(s, x)[m]),
    decreases s.len(),
{
    let r = insert_ordered(s, x);
    if s.len() == 0 {
    } else if lex_le(time_key(s.last()), time_key(x)) {
        assert forall|m: int| 0 <= m < r.len() implies r[m] == x || (exists|n: int|
            0 <= n < s.len() && s[n] == r[m]) by {
            if m < s.len() {
                assert(s[m] == r[m]);
            }
        }
    } else {
        lemma_insert_ordered_elems(s.drop_last(), x);
        let t = insert_ordered(s.drop_last(), x);
        assert forall|m: int| 0 <= m < r.len() implies r[m] == x || (exists|n: int|
            0 <= n < s.len() && s[n] == r[m]) by {
            if m < t.len() {
                assert(t[m] == r[m]);
                if t[m] != x {
                    let n = choose|n: int| 0 <= n < s.drop_last().len() && s.drop_last()[n] == t[m];
                    assert(s[n] == r[m]);
                }
            } else {
                assert(r[m] == s.last());
                assert(s[s.len() - 1] == r[m]);
            }
        }
    }
}

/// Inserting into a sorted run keeps it sorted.
proof fn lemma_insert_ordered_sorted(s: Seq<SessionView>, x: SessionView)
    requires
        time_sorted(s),
    ensures
        time_sorted(insert_ordered(s, x)),
    decreases s.len(),
{
    let r = insert_ordered(s, x);
    if s.len() == 0 {
    } else if lex_le(time_key(s.last()), time_key(x)) {
        assert forall|i: int, j: int| 0 <= i < j < r.len() implies lex_le(
            time_key(r[i]),
            time_key(r[j]),
        ) by {
            if j == s.len() {
                if i < s.len() - 1 {
                    lemma_lex_trans(time_key(s[i]), time_key(s.last()), time_key(x));
                }
            }
        }
    } else {
        assert(time_sorted(s.drop_last()));
        lemma_insert_ordered_sorted(s.drop_last(), x);
        lemma_insert_ordered_elems(s.drop_last(), x);
        lemma_insert_ordered_len(s.drop_last(), x);
        let t = insert_ordered(s.drop_last(), x);
        lemma_lex_total(time_key(s.last()), time_key(x));
        assert forall|i: int, j: int| 0 <= i < j < r.len() implies lex_le(
            time_key(r[i]),
            time_key(r[j]),
        ) by {
            if j == r.len() - 1 {
                assert(r[j] == s.last());
                assert(r[i] == t[i]);
                if t[i] == x {
                    assert(lex_le(time_key(x), time_key(s.last())));
                } else {
                    let n = choose|n: int| 0 <= n < s.drop_last().len() && s.drop_last()[n] == t[i];
                    assert(lex_le(time_key(s[n]), time_key(s.last())));
                }
            } else {
                assert(r[i] == t[i] && r[j] == t[j]);
            }
        }
    }
}

/// Inserting adds exactly the inserted session to the collection.
proof fn lemma_insert_ordered_multiset(s: Seq<SessionView>, x: SessionView)
    ensures
        insert_ordered(s, x).to_multiset() =~= s.to_multiset().insert(x),
    decreases s.len(),
{
    if s.len() == 0 {
        assert(seq![x] =~= Seq::<SessionView>::empty().push(x));
        assert(s.to_multiset() =~= Multiset::<SessionView>::empty());
    } else if lex_le(time_key(s.last()), time_key(x)) {
    } else {
        lemma_insert_ordered_multiset(s.drop_last(), x);
        let t = insert_ordered(s.drop_last(), x);
        assert(t.push(s.last()).to_multiset() =~= t.to_multiset().insert(s.last()));
        assert(s.drop_last().push(s.last()) =~= s);
        assert(s.to_multiset() =~= s.drop_last().to_multiset().insert(s.last()));
    }
}

/// Appending a session extends the run of its own key and leaves every
/// other key's run alone.
proof fn lemma_with_key_push(s: Seq<SessionView>, x: SessionView, k: Seq<char>)
    ensures
        with_key(s.push(x), k) == if time_key(x) == k {
            with_key(s, k).push(x)
        } else {
            with_key(s, k)
        },
{
    assert(s.push(x).drop_last() =~= s);
    assert(s.push(x).last() == x);
}

/// Inserting appends the session to the run of its own key and leaves every
/// other key's run alone: insertion is stable.
proof fn lemma_insert_ordered_with_key(s: Seq<SessionView>, x: SessionView, k: Seq<char>)
    ensures
        with_key(insert_ordered(s, x), k) == if time_key(x) == k {
            with_key(s, k).push(x)
        } else {
            with_key(s, k)
        },
    decreases s.len(),
{
    if s.len() == 0 {
        assert(seq![x] =~= s.push(x));
        lemma_with_key_push(s, x, k);
    } else if lex_le(time_key(s.last()), time_key(x)) {
        lemma_with_key_push(s, x, k);
    } else {
        lemma_insert_ordered_with_key(s.drop_last(), x, k);
        let t = insert_ordered(s.drop_last(), x);
        lemma_with_key_push(t, s.last(), k);
        lemma_with_key_push(s.drop_last(), s.last(), k);
        assert(s.drop_last().push(s.last()) =~= s);
        if time_key(x) == k {
            assert(time_key(s.last()) != time_key(x));
        }
    }
}

/// The position of the first element whose key is greater than the given
/// session's: where a stable insertion puts it.
fn insert_pos(r: &Vec<Session>, x: &Session) -> (p: usize)
    ensures
        0 <= p <= r@.len(),
        forall|m: int| p <= m < r@.len() ==> !lex_le(time_key(#[trigger] r@[m]@), time_key(x@)),
        p > 0 ==> lex_le(time_key(r@[p - 1]@), time_key(x@)),
{
    let mut p: usize = r.len();
    while p > 0
        invariant
            0 <= p <= r@.len(),
            forall|m: int| p <= m < r@.len() ==> !lex_le(time_key(#[trigger] r@[m]@), time_key(x@)),
        decreases p,
    {
        if str_lex_le(r[p - 1].show_time_clt.as_str(), x.show_time_clt.as_str()) {
            return p;
        }
        p = p - 1;
    }
    0
}

/// A stable insertion lands at the position found for it.
proof fn lemma_insert_ordered_at(s: Seq<SessionView>, x: SessionView, p: int)
    requires
        0 <= p <= s.len(),
        forall|m: int| p <= m < s.len() ==> !lex_le(time_key(#[trigger] s[m]), time_key(x)),
        p > 0 ==> lex_le(time_key(s[p - 1]), time_key(x)),
    ensures
        insert_ordered(s, x) == s.insert(p, x),
    decreases s.len(),
{
    if s.len() == 0 {
        assert(seq![x] =~= s.insert(0, x));
    } else if p == s.len() {
        assert(lex_le(time_key(s.last()), time_key(x)));
        assert(s.push(x) =~= s.insert(p, x));
    } else {
        assert(!lex_le(time_key(s[s.len() - 1]), time_key(x)));
        lemma_insert_ordered_at(s.drop_last(), x, p);
        assert(s.drop_last().insert(p, x).push(s.last()) =~= s.insert(p, x));
    }
}

/// Sorts the sessions ascending by the raw text of their show times,
/// keeping the input order of sessions whose texts are equal.
pub fn sort_sessions(input: Vec<Session>) -> (r: Vec<Session>)
    ensures
        session_views(r@) == sorted_by_time(session_views(input@)),
{
    let mut r: Vec<Session> = Vec::new();
    let mut i: usize = 0;
    proof {
        assert(session_views(input@.take(0)) =~= Seq::<SessionView>::empty());
        assert(session_views(r@) =~= Seq::<SessionView>::empty());
    }
    while i < input.len()
        invariant
            0 <= i <= input@.len(),
            session_views(r@) == sorted_by_time(session_views(input@.take(i as int))),
        decreases input@.len() - i,
    {
        let x = input[i].clone();
        let p = insert_pos(&r, &x);
        let ghost prior = session_views(r@);
        proof {
            assert forall|m: int| p <= m < prior.len() implies !lex_le(
                time_key(#[trigger] prior[m]),
                time_key(x@),
            ) by {
                assert(prior[m] == r@[m]@);
            }
            if p > 0 {
                assert(prior[p - 1] == r@[p - 1]@);
            }
            lemma_insert_ordered_at(prior, x@, p as int);
        }
        r.insert(p, x);
        proof {
            assert(session_views(r@) =~= prior.insert(p as int, x@));
            let svs = session_views(input@.take(i as int + 1));
            assert(svs.drop_last() =~= session_views(input@.take(i as int)));
            assert(svs.last() == input@[i as int]@);
            assert(x@ == input@[i as int]@);
            assert(sorted_by_time(svs) == insert_ordered(sorted_by_time(svs.drop_last()), svs.last()));
        }
        i += 1;
    }
    proof {
        assert(input@.take(input@.len() as int) =~= input@);
    }
    r
}

/// The sorted list is ascending in lexicographic order of the raw
/// show-time text.
pub proof fn lemma_sorted_by_time_sorted(s: Seq<SessionView>)
    ensures
        time_sorted(sorted_by_time(s)),
    decreases s.len(),
{
    if s.len() > 0 {
        lemma_sorted_by_time_sorted(s.drop_last());
        lemma_insert_ordered_sorted(sorted_by_time(s.drop_last()), s.last());
    }
}

/// The sorted list holds exactly the input sessions.
pub proof fn lemma_sorted_by_time_multiset(s: Seq<SessionView>)
    ensures
        sorted_by_time(s).to_multiset() =~= s.to_multiset(),
    decreases s.len(),
{
    if s.len() == 0 {
    } else {
        lemma_sorted_by_time_multiset(s.drop_last());
        lemma_insert_ordered_multiset(sorted_by_time(s.drop_last()), s.last());
        assert(s.drop_last().push(s.last()) =~= s);
        assert(s.to_multiset() =~= s.drop_last().to_multiset().insert(s.last()));
    }
}

/// The sort is stable: the sessions carrying any one show-time text keep
/// their input order.
pub proof fn lemma_sorted_by_time_stable(s: Seq<SessionView>, k: Seq<char>)
    ensures
        with_key(sorted_by_time(s), k) == with_key(s, k),
    decreases s.len(),
{
    if s.len() == 0 {
    } else {
        lemma_sorted_by_time_stable(s.drop_last(), k);
        lemma_insert_ordered_with_key(sorted_by_time(s.drop_last()), s.last(), k);
        assert(s.drop_last().push(s.last()) =~= s);
        assert(with_key(s.drop_last().push(s.last()), k) == if time_key(s.last()) == k {
            with_key(s.drop_last(), k).push(s.last())
        } else {
            with_key(s.drop_last(), k)
        });
    }
}

} // verus!
