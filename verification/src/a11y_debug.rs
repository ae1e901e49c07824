//! Short human-readable ids for the nodes of an accessibility tree dump:
//! the n-th node in id order is named `a, b, ..., z, aa, ab, ...`.

use vstd::prelude::*;
use crate::text::{decimal_seq, push_decimal, string_push};

verus! {

/// The lower-case letter with the given index in the alphabet.
pub open spec fn letter(i: nat) -> char {
    (('a' as u32) + i) as char
}

/// The short id of the zero-based index `index`: bijective base 26 over the
/// letters `a` to `z`.
pub open spec fn debug_id_of(index: nat) -> Seq<char>
    decreases index,
{
    if index < 26 {
        seq![letter(index)]
    } else {
        debug_id_of((index / 26 - 1) as nat).push(letter(index % 26))
    }
}

/// Maps a zero-based index to `a, b, ..., z, aa, ab, ...`.
pub fn debug_id(index: usize) -> (r: String)
    ensures
        r@ == debug_id_of(index as nat),
{
    let mut bytes: Vec<u8> = Vec::new();
    let mut x: usize = index;
    let ghost orig = index as nat;
    loop
        invariant_except_break
            debug_id_of(orig) == debug_id_of(x as nat) + bytes@.reverse().map_values(
                |b: u8| b as char,
            ),
            forall|k: int| 0 <= k < bytes@.len() ==> 0x61 <= #[trigger] bytes@[k] <= 0x7a,
        ensures
            debug_id_of(orig) == bytes@.reverse().map_values(|b: u8| b as char),
            forall|k: int| 0 <= k < bytes@.len() ==> 0x61 <= #[trigger] bytes@[k] <= 0x7a,
        decreases x,
    {
        let digit: u8 = (x % 26) as u8;
        let b: u8 = 0x61 + digit;
        let ghost old_bytes = bytes@;
        bytes.push(b);
        proof {
            assert(bytes@.reverse() =~= seq![b] + old_bytes.reverse());
            assert(bytes@.reverse().map_values(|b: u8| b as char) =~= seq![b as char]
                + old_bytes.reverse().map_values(|b: u8| b as char));
            assert(b as char == letter((x % 26) as nat));
        }
        if x < 26 {
            proof {
                assert(debug_id_of(x as nat) == seq![letter(x as nat)]);
                assert(debug_id_of(orig) =~= bytes@.reverse().map_values(|b: u8| b as char));
            }
            break;
        }
        let next = x / 26 - 1;
        proof {
            assert(debug_id_of(x as nat) == debug_id_of(next as nat).push(letter((x % 26) as nat)));
            assert(debug_id_of(orig) =~= debug_id_of(next as nat) + bytes@.reverse().map_values(
                |b: u8| b as char,
            ));
        }
        x = next;
    }
    let mut out = String::new();
    let mut i: usize = bytes.len();
    while i > 0
        invariant
            i <= bytes@.len(),
            out@ =~= bytes@.subrange(i as int, bytes@.len() as int).reverse().map_values(
                |b: u8| b as char,
            ),
        decreases i,
    {
        i = i - 1;
        let c = bytes[i] as char;
        let ghost before = out@;
        string_push(&mut out, c);
        proof {
            assert(bytes@.subrange(i as int, bytes@.len() as int).reverse() =~= bytes@.subrange(
                i + 1,
                bytes@.len() as int,
            ).reverse().push(bytes@[i as int]));
        }
    }
    proof {
        assert(bytes@.subrange(0, bytes@.len() as int) == bytes@);
    }
    out
}

/// Exchanging two positions of a sequence keeps what it holds.
proof fn lemma_swap_keeps_multiset(s: Seq<u64>, i: int, j: int)
    requires
        0 <= i < s.len(),
        0 <= j < s.len(),
        i != j,
    ensures
        s.update(i, s[j]).update(j, s[i]).to_multiset() == s.to_multiset(),
{
    broadcast use vstd::seq_lib::to_multiset_update;
    broadcast use vstd::multiset::group_multiset_axioms;

    broadcast use vstd::seq_lib::to_multiset_contains;

    let s1 = s.update(i, s[j]);
    assert(s1[j] == s[j]);
    let m = s.to_multiset();
    assert(s.contains(s[i]));
    assert(m.count(s[i]) > 0);
    let m1 = m.insert(s[j]).remove(s[i]);
    assert(s1.to_multiset() == m1);
    let m2 = m1.insert(s[i]).remove(s[j]);
    assert(s1.update(j, s[i]).to_multiset() == m2);
    assert(m2 =~= m);
}

/// Sorts node ids in increasing order by insertion: the result holds the
/// same ids, each as often as before.
fn sort_ids(ids: &mut Vec<u64>)
    ensures
        final(ids)@.to_multiset() == old(ids)@.to_multiset(),
        forall|i: int, j: int| 0 <= i <= j < final(ids)@.len() ==> final(ids)@[i] <= final(ids)@[j],
{
    let n = ids.len();
    let mut i: usize = 1;
    while i < n
        invariant
            n == ids@.len(),
            ids@.to_multiset() == old(ids)@.to_multiset(),
            1 <= i || n == 0,
            forall|a: int, b: int| 0 <= a <= b < i && b < n ==> ids@[a] <= ids@[b],
        decreases n - i,
    {
        let mut j: usize = i;
        while j > 0 && ids[j - 1] > ids[j]
            invariant
                n == ids@.len(),
                i < n,
                j <= i,
                ids@.to_multiset() == old(ids)@.to_multiset(),
                forall|a: int, b: int|
                    0 <= a <= b <= i && a != j && b != j ==> ids@[a] <= ids@[b],
                forall|k: int| j < k <= i ==> ids@[j as int] < ids@[k],
            decreases j,
        {
            let ghost before = ids@;
            let lower = ids[j - 1];
            let upper = ids[j];
            ids.set(j - 1, upper);
            ids.set(j, lower);
            proof {
                lemma_swap_keeps_multiset(before, j - 1, j as int);
                assert(ids@ == before.update(j - 1, before[j as int]).update(
                    j as int,
                    before[j - 1],
                ));
            }
            j = j - 1;
        }
        i = i + 1;
    }
}

/// The node ids of a tree in increasing order, as they are named.
pub fn sorted_node_ids(ids: &Vec<u64>) -> (r: Vec<u64>)
    ensures
        r@.to_multiset() == ids@.to_multiset(),
        forall|i: int, j: int| 0 <= i <= j < r@.len() ==> r@[i] <= r@[j],
{
    let mut sorted = ids.clone();
    proof {
        assert(sorted@ == ids@);
    }
    sort_ids(&mut sorted);
    sorted
}

/// Whether node `id` is named by position `k` of the sorted ids: it is the
/// last position holding `id`.
pub open spec fn names_at(sorted: Seq<u64>, id: u64, k: int) -> bool {
    0 <= k < sorted.len() && sorted[k] == id && forall|j: int| k < j < sorted.len() ==> sorted[j] != id
}

/// The label of node `id` in a dump of a tree whose sorted node ids are
/// `sorted`: the short id of the last position holding it, or its decimal
/// number when the tree does not hold it.
pub open spec fn debug_label_of(id: u64, sorted: Seq<u64>) -> Seq<char> {
    if exists|k: int| names_at(sorted, id, k) {
        debug_id_of((choose|k: int| names_at(sorted, id, k)) as nat)
    } else {
        decimal_seq(id as nat)
    }
}

/// The label of node `id` in the dump of a tree with the sorted node ids
/// `sorted`.
pub fn debug_label(id: u64, sorted: &Vec<u64>) -> (r: String)
    ensures
        r@ == debug_label_of(id, sorted@),
{
    let mut i: usize = sorted.len();
    while i > 0
        invariant
            i <= sorted@.len(),
            forall|j: int| i <= j < sorted@.len() ==> sorted@[j] != id,
        decreases i,
    {
        if sorted[i - 1] == id {
            let k = i - 1;
            proof {
                assert(names_at(sorted@, id, k as int));
                assert forall|k2: int| names_at(sorted@, id, k2) implies k2 == k by {
                    if k2 < k {
                        assert(sorted@[k as int] == id);
                    }
                }
            }
            return debug_id(k);
        }
        i = i - 1;
    }
    let mut out = String::new();
    push_decimal(&mut out, id);
    proof {
        assert(!exists|k: int| names_at(sorted@, id, k));
        assert(Seq::<char>::empty() + decimal_seq(id as nat) =~= decimal_seq(id as nat));
    }
    out
}

/// Distinct indices get distinct short ids.
pub proof fn lemma_debug_id_injective(a: nat, b: nat)
    requires
        debug_id_of(a) == debug_id_of(b),
    ensures
        a == b,
    decreases a + b,
{
    if a < 26 && b < 26 {
        assert(debug_id_of(a) == seq![letter(a)]);
        assert(debug_id_of(b) == seq![letter(b)]);
        assert(letter(a) == debug_id_of(a)[0]);
        assert(letter(a) == letter(b));
        lemma_letter_code(a);
        lemma_letter_code(b);
        assert(a == b);
    } else if a < 26 {
        lemma_debug_id_nonempty((b / 26 - 1) as nat);
        assert(debug_id_of(b).len() >= 2);
        assert(false);
    } else if b < 26 {
        lemma_debug_id_nonempty((a / 26 - 1) as nat);
        assert(debug_id_of(a).len() >= 2);
        assert(false);
    } else {
        let pa = debug_id_of((a / 26 - 1) as nat);
        let pb = debug_id_of((b / 26 - 1) as nat);
        assert(debug_id_of(a).last() == letter(a % 26));
        assert(debug_id_of(b).last() == letter(b % 26));
        lemma_letter_code(a % 26);
        lemma_letter_code(b % 26);
        assert(a % 26 == b % 26);
        assert(debug_id_of(a).drop_last() =~= pa);
        assert(debug_id_of(b).drop_last() =~= pb);
        lemma_debug_id_injective((a / 26 - 1) as nat, (b / 26 - 1) as nat);
        assert(a == 26 * (a / 26) + a % 26) by (nonlinear_arith);
        assert(b == 26 * (b / 26) + b % 26) by (nonlinear_arith);
        assert(a / 26 == b / 26);
    }
}

/// Every short id is non-empty and made of lower-case letters.
pub proof fn lemma_debug_id_nonempty(index: nat)
    ensures
        debug_id_of(index).len() >= 1,
        forall|k: int|
            0 <= k < debug_id_of(index).len() ==> 'a' <= #[trigger] debug_id_of(index)[k] <= 'z',
    decreases index,
{
    if index >= 26 {
        lemma_debug_id_nonempty((index / 26 - 1) as nat);
    }
}

/// The short ids of the first 26 indices are single letters; from then on
/// an id gains one letter for each further factor of 26 of the index.
pub proof fn lemma_debug_id_length(index: nat)
    ensures
        index < 26 ==> debug_id_of(index).len() == 1,
        26 <= index < 26 + 26 * 26 ==> debug_id_of(index).len() == 2,
{
    if 26 <= index < 26 + 26 * 26 {
        let q = (index / 26 - 1) as nat;
        assert(q < 26);
        assert(debug_id_of(q).len() == 1);
    }
}

/// The code point of a letter.
/// The value of a string of lower-case letters read as a numeral in
/// bijective base 26, with `a` for one up to `z` for twenty-six.
pub open spec fn bijective_value(s: Seq<char>) -> int
    decreases s.len(),
{
    if s.len() == 0 {
        0
    } else {
        bijective_value(s.drop_last()) * 26 + ((s.last() as u32) - 96)
    }
}

/// The short id of an index is the index plus one written in bijective
/// base 26: letters only, `a` for one up to `z` for twenty-six. So every
/// positive value is the id of exactly one index.
pub proof fn lemma_debug_id_base_26(index: nat)
    ensures
        debug_id_of(index).len() >= 1,
        forall|k: int|
            0 <= k < debug_id_of(index).len() ==> 'a' <= #[trigger] debug_id_of(index)[k] <= 'z',
        bijective_value(debug_id_of(index)) == index + 1,
    decreases index,
{
    lemma_debug_id_nonempty(index);
    if index < 26 {
        lemma_letter_code(index);
        let s = debug_id_of(index);
        assert(s.drop_last() =~= Seq::<char>::empty());
        assert(bijective_value(s.drop_last()) == 0);
    } else {
        let q = (index / 26 - 1) as nat;
        lemma_debug_id_base_26(q);
        lemma_letter_code(index % 26);
        let s = debug_id_of(index);
        assert(s.drop_last() =~= debug_id_of(q));
        assert(s.last() == letter(index % 26));
        assert((q + 1) * 26 + index % 26 == index) by (nonlinear_arith)
            requires
                q + 1 == index / 26,
        ;
    }
}

proof fn lemma_letter_code(i: nat)
    requires
        i < 26,
    ensures
        letter(i) as u32 == 97 + i,
{
}

} // verus!
