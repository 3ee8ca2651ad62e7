//! Move ordering: each legal move gets a sort key (smaller is searched
//! first), and the move list is sorted by key.
//!
//! Key classes, best first: the hash move from the transposition
//! table; captures, by a cheap static-exchange estimate; the two
//! killer moves of the current depth; quiet promotions; and the other
//! quiet moves, by their history counter.

use vstd::prelude::*;
use vstd::assert_multisets_equal;
use shakmaty::Move;
use crate::evaluation::material;

verus! {

broadcast use vstd::seq_lib::group_to_multiset_ensures, vstd::multiset::group_multiset_axioms;

/// A move tagged with its sort key.
pub struct ScoredMove {
    pub key: i64,
    pub mv: Move,
}

/// Cheap static-exchange estimate of a capture: the victim's value
/// less a tenth of the attacker's, both by role index.
pub open spec fn see_spec(victim: int, attacker: int) -> int {
    material(victim) - material(attacker) / 10
}

/// The sort key of a move from its classification.
pub open spec fn key_spec(
    hash_hit: bool,
    capture: bool,
    victim: int,
    attacker: int,
    killer0: bool,
    killer1: bool,
    promotion: bool,
    history: int,
) -> int {
    if hash_hit {
        -4000000
    } else if capture {
        -2000000 - see_spec(victim, attacker)
    } else if killer0 {
        -900000
    } else if killer1 {
        -800000
    } else if promotion {
        -700000
    } else {
        -history
    }
}

/// Material value of a role index, for the exchange estimate.
pub fn material_of(role: u8) -> (r: u32)
    ensures
        r == material(role as int),
        r <= 20000,
{
    if role == 1 {
        100
    } else if role == 2 {
        320
    } else if role == 3 {
        330
    } else if role == 4 {
        500
    } else if role == 5 {
        900
    } else if role == 6 {
        20000
    } else {
        0
    }
}

/// Static-exchange estimate of a capture of `victim` by `attacker`.
pub fn see_simple(victim: u8, attacker: u8) -> (r: i32)
    ensures
        r == see_spec(victim as int, attacker as int),
        -2000 <= r <= 20000,
{
    let mv = material_of(victim);
    let ma = material_of(attacker);
    mv as i32 - (ma / 10) as i32
}

/// The sort key of one move, from its classification as the ordering
/// rules state it.
pub fn move_key(
    hash_hit: bool,
    capture: bool,
    victim: u8,
    attacker: u8,
    killer0: bool,
    killer1: bool,
    promotion: bool,
    history: u32,
) -> (k: i64)
    ensures
        k == key_spec(
            hash_hit,
            capture,
            victim as int,
            attacker as int,
            killer0,
            killer1,
            promotion,
            history as int,
        ),
        k <= 0,
{
    if hash_hit {
        -4000000
    } else if capture {
        -2000000 - see_simple(victim, attacker) as i64
    } else if killer0 {
        -900000
    } else if killer1 {
        -800000
    } else if promotion {
        -700000
    } else {
        -(history as i64)
    }
}

/// The moves of a scored list, in order, keys dropped.
pub open spec fn moves_of(s: Seq<ScoredMove>) -> Seq<Move> {
    s.map_values(|sm: ScoredMove| sm.mv)
}

/// Two scored lists holding the same entries (as a multiset) hold the
/// same moves (as a multiset): dropping the keys keeps a permutation
/// a permutation.
pub proof fn lemma_moves_of_multiset(s1: Seq<ScoredMove>, s2: Seq<ScoredMove>)
    requires
        s1.to_multiset() == s2.to_multiset(),
    ensures
        moves_of(s1).to_multiset() == moves_of(s2).to_multiset(),
    decreases s1.len(),
{
    if s1.len() == 0 {
        assert(s1.to_multiset().len() == s1.len());
        assert(s2.to_multiset().len() == s2.len());
        assert(s2.len() == 0);
        assert(moves_of(s1) =~= moves_of(s2));
    } else {
        let e = s1[0];
        assert(s1.contains(e));
        assert(s1.to_multiset().count(e) > 0);
        assert(s2.to_multiset().count(e) > 0);
        assert(s2.contains(e));
        let i = choose|i: int| 0 <= i < s2.len() && s2[i] == e;
        let t1 = s1.remove(0);
        let t2 = s2.remove(i);
        assert(t1.to_multiset() == s1.to_multiset().remove(e));
        assert(t2.to_multiset() == s2.to_multiset().remove(e));
        lemma_moves_of_multiset(t1, t2);
        assert(moves_of(s1)[0] == e.mv);
        assert(moves_of(s2)[i] == e.mv);
        assert(moves_of(t1) =~= moves_of(s1).remove(0));
        assert(moves_of(t2) =~= moves_of(s2).remove(i));
        assert(moves_of(s1).remove(0).to_multiset() == moves_of(s1).to_multiset().remove(e.mv));
        assert(moves_of(s2).remove(i).to_multiset() == moves_of(s2).to_multiset().remove(e.mv));
        assert(moves_of(s1).to_multiset().remove(e.mv) == moves_of(s2).to_multiset().remove(
            e.mv,
        ));
        assert(moves_of(s1).to_multiset().count(e.mv) > 0) by {
            assert(moves_of(s1).contains(e.mv));
        }
        assert(moves_of(s2).to_multiset().count(e.mv) > 0) by {
            assert(moves_of(s2).contains(e.mv));
        }
        assert forall|x: Move|
            (#[trigger] moves_of(s1).to_multiset().count(x)) == moves_of(
                s2,
            ).to_multiset().count(x) by {
            assert(moves_of(s1).to_multiset().remove(e.mv).count(x) == moves_of(
                s2,
            ).to_multiset().remove(e.mv).count(x));
        }
        assert(moves_of(s1).to_multiset() =~= moves_of(s2).to_multiset());
    }
}

/// Keys never decrease along the list.
pub open spec fn sorted_by_key(s: Seq<ScoredMove>) -> bool {
    forall|i: int, j: int| 0 <= i < j < s.len() ==> s[i].key <= s[j].key
}

/// Stable sort of the scored moves by ascending key: the result is a
/// permutation of the input, sorted by key.  Repeatedly extracting the
/// first minimum keeps equal-keyed moves in their original order.
pub fn sort_by_key(input: Vec<ScoredMove>) -> (out: Vec<ScoredMove>)
    ensures
        sorted_by_key(out@),
        out@.to_multiset() == input@.to_multiset(),
        out@.len() == input@.len(),
{
    let ghost orig = input@;
    let mut rest = input;
    let mut out: Vec<ScoredMove> = Vec::new();
    while rest.len() > 0
        invariant
            sorted_by_key(out@),
            out@.to_multiset().add(rest@.to_multiset()) == orig.to_multiset(),
            out@.len() + rest@.len() == orig.len(),
            forall|i: int, j: int|
                0 <= i < out@.len() && 0 <= j < rest@.len() ==> out@[i].key <= rest@[j].key,
        decreases rest.len(),
    {
        let mut min_i: usize = 0;
        let mut i: usize = 1;
        while i < rest.len()
            invariant
                rest@.len() > 0,
                min_i < i,
                i <= rest@.len(),
                forall|j: int| 0 <= j < i ==> rest@[min_i as int].key <= rest@[j].key,
            decreases rest@.len() - i,
        {
            if rest[i].key < rest[min_i].key {
                min_i = i;
            }
            i = i + 1;
        }
        let ghost old_out = out@;
        let ghost old_rest = rest@;
        let ghost m_spec = rest@[min_i as int];
        let m = rest.remove(min_i);
        out.push(m);
        proof {
            assert(old_rest.contains(m_spec));
            assert(old_rest.to_multiset().count(m_spec) > 0);
            assert_multisets_equal!(
                out@.to_multiset().add(rest@.to_multiset()),
                orig.to_multiset()
            );
        }
    }
    out
}

} // verus!
