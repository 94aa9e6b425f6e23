//! The turn-order rule: who acts first, and the stable sort that keeps a
//! roster in that order.
//!
//! A character acts before another when its initiative is strictly greater,
//! or when the initiatives tie and its modifier is strictly greater. Equal on
//! both fields means the order between the two is left to stability: a
//! character inserted later stays after the ones already there.

use vstd::prelude::*;

use core::cmp::Ordering;

use crate::character::Character;
use crate::ids::Uid;

verus! {

/// `a` acts strictly before `b`: greater initiative, or equal initiative and
/// greater tie-break modifier.
pub open spec fn precedes(a: Character, b: Character) -> bool {
    ||| a.initiative > b.initiative
    ||| (a.initiative == b.initiative && a.initiative_modifier > b.initiative_modifier)
}

/// The sequence is in turn order: no later character acts strictly before an
/// earlier one.
pub open spec fn in_turn_order(s: Seq<Character>) -> bool {
    forall|i: int, j: int| 0 <= i < j < s.len() ==> !precedes(s[j], s[i])
}

/// `c` placed into `s` at the first position whose occupant `c` strictly
/// precedes; characters that tie with `c` stay in front of it.
pub open spec fn sorted_insert(s: Seq<Character>, c: Character) -> Seq<Character>
    decreases s.len(),
{
    if s.len() == 0 {
        seq![c]
    } else if precedes(c, s[0]) {
        seq![c] + s
    } else {
        seq![s[0]] + sorted_insert(s.drop_first(), c)
    }
}

/// The stable sort of `s` by the turn-order rule: characters are inserted
/// left to right, so characters equal on both fields keep their relative
/// order.
pub open spec fn sort_by_initiative(s: Seq<Character>) -> Seq<Character>
    decreases s.len(),
{
    if s.len() == 0 {
        Seq::empty()
    } else {
        sorted_insert(sort_by_initiative(s.drop_last()), s.last())
    }
}

/// How many characters of `s` carry the given id.
pub open spec fn count_with_id(s: Seq<Character>, id: Uid) -> nat
    decreases s.len(),
{
    if s.len() == 0 {
        0
    } else {
        (if s[0].id == id {
            1nat
        } else {
            0nat
        }) + count_with_id(s.drop_first(), id)
    }
}

/// Some character of `s` carries the given id.
pub open spec fn has_character_with_id(s: Seq<Character>, id: Uid) -> bool {
    exists|i: int| 0 <= i < s.len() && s[i].id == id
}

/// The first index of `s` whose character carries the given id; `s.len()`
/// when there is none.
pub open spec fn index_of_id(s: Seq<Character>, id: Uid) -> int
    decreases s.len(),
{
    if s.len() == 0 {
        0
    } else if s[0].id == id {
        0
    } else {
        1 + index_of_id(s.drop_first(), id)
    }
}

/// `index_of_id` is the first index carrying the id, and it is in range
/// exactly when some character carries the id.
pub proof fn lemma_index_of_id(s: Seq<Character>, id: Uid)
    ensures
        0 <= index_of_id(s, id) <= s.len(),
        index_of_id(s, id) < s.len() ==> s[index_of_id(s, id)].id == id,
        forall|k: int| 0 <= k < index_of_id(s, id) ==> s[k].id != id,
        has_character_with_id(s, id) <==> index_of_id(s, id) < s.len(),
    decreases s.len(),
{
    if s.len() > 0 && s[0].id != id {
        lemma_index_of_id(s.drop_first(), id);
        assert forall|k: int| 0 <= k < index_of_id(s, id) implies s[k].id != id by {
            if k > 0 {
                assert(s.drop_first()[k - 1] == s[k]);
            }
        }
        if has_character_with_id(s, id) {
            let w = choose|i: int| 0 <= i < s.len() && s[i].id == id;
            assert(s.drop_first()[w - 1] == s[w]);
        }
        if index_of_id(s, id) < s.len() {
            let w = index_of_id(s.drop_first(), id);
            assert(s[w + 1] == s.drop_first()[w]);
        }
    }
}

/// `sorted_insert` places `c` exactly at the first position whose occupant
/// `c` strictly precedes.
pub proof fn lemma_sorted_insert_at(s: Seq<Character>, c: Character, j: int)
    requires
        0 <= j <= s.len(),
        forall|k: int| 0 <= k < j ==> !precedes(c, s[k]),
        j < s.len() ==> precedes(c, s[j]),
    ensures
        sorted_insert(s, c) == s.subrange(0, j) + seq![c] + s.subrange(j, s.len() as int),
    decreases s.len(),
{
    if s.len() == 0 {
        assert(sorted_insert(s, c) =~= s.subrange(0, j) + seq![c] + s.subrange(j, s.len() as int));
    } else if j == 0 {
        assert(precedes(c, s[0]));
        assert(sorted_insert(s, c) =~= s.subrange(0, 0) + seq![c] + s.subrange(0, s.len() as int));
    } else {
        assert(!precedes(c, s[0]));
        let rest = s.drop_first();
        assert forall|k: int| 0 <= k < j - 1 implies !precedes(c, rest[k]) by {
            assert(rest[k] == s[k + 1]);
        }
        assert(j - 1 < rest.len() ==> precedes(c, rest[j - 1]));
        lemma_sorted_insert_at(rest, c, j - 1);
        assert(sorted_insert(s, c) =~= s.subrange(0, j) + seq![c] + s.subrange(j, s.len() as int));
    }
}

/// Every character of `sorted_insert(s, c)` is `c` or already stood in `s`.
proof fn lemma_sorted_insert_elements(s: Seq<Character>, c: Character)
    ensures
        forall|i: int|
            0 <= i < sorted_insert(s, c).len() ==> sorted_insert(s, c)[i] == c || s.contains(
                sorted_insert(s, c)[i],
            ),
    decreases s.len(),
{
    let r = sorted_insert(s, c);
    if s.len() == 0 {
    } else if precedes(c, s[0]) {
        assert forall|i: int| 0 <= i < r.len() implies r[i] == c || s.contains(r[i]) by {
            if i > 0 {
                assert(r[i] == s[i - 1]);
            }
        }
    } else {
        let rest = s.drop_first();
        lemma_sorted_insert_elements(rest, c);
        assert forall|i: int| 0 <= i < r.len() implies r[i] == c || s.contains(r[i]) by {
            if i == 0 {
                assert(s.contains(s[0]));
            } else {
                assert(r[i] == sorted_insert(rest, c)[i - 1]);
                if sorted_insert(rest, c)[i - 1] != c {
                    let w = choose|k: int| 0 <= k < rest.len() && rest[k] == r[i];
                    assert(s[w + 1] == rest[w]);
                }
            }
        }
    }
}

/// Inserting into a sequence in turn order keeps it in turn order.
pub proof fn lemma_sorted_insert_in_order(s: Seq<Character>, c: Character)
    requires
        in_turn_order(s),
    ensures
        in_turn_order(sorted_insert(s, c)),
    decreases s.len(),
{
    let r = sorted_insert(s, c);
    if s.len() == 0 {
    } else if precedes(c, s[0]) {
        assert forall|i: int, j: int| 0 <= i < j < r.len() implies !precedes(r[j], r[i]) by {
            if i == 0 {
                assert(r[j] == s[j - 1]);
                if j - 1 > 0 {
                    assert(!precedes(s[j - 1], s[0]));
                }
            } else {
                assert(r[i] == s[i - 1] && r[j] == s[j - 1]);
            }
        }
    } else {
        let rest = s.drop_first();
        assert forall|i: int, j: int| 0 <= i < j < rest.len() implies !precedes(
            rest[j],
            rest[i],
        ) by {
            assert(rest[i] == s[i + 1] && rest[j] == s[j + 1]);
        }
        lemma_sorted_insert_in_order(rest, c);
        lemma_sorted_insert_elements(rest, c);
        let t = sorted_insert(rest, c);
        assert forall|i: int, j: int| 0 <= i < j < r.len() implies !precedes(r[j], r[i]) by {
            if i == 0 {
                assert(r[j] == t[j - 1]);
                if t[j - 1] != c {
                    let w = choose|k: int| 0 <= k < rest.len() && rest[k] == t[j - 1];
                    assert(rest[w] == s[w + 1]);
                    assert(!precedes(s[w + 1], s[0]));
                }
            } else {
                assert(r[i] == t[i - 1] && r[j] == t[j - 1]);
            }
        }
    }
}

/// The stable sort leaves the sequence in turn order.
pub proof fn lemma_sort_in_turn_order(s: Seq<Character>)
    ensures
        in_turn_order(sort_by_initiative(s)),
    decreases s.len(),
{
    if s.len() > 0 {
        lemma_sort_in_turn_order(s.drop_last());
        lemma_sorted_insert_in_order(sort_by_initiative(s.drop_last()), s.last());
    }
}

/// Higher initiative always acts earlier, and on equal initiative the greater
/// modifier acts earlier: in a sorted roster, a character that strictly
/// precedes another by the rule stands at a strictly earlier position.
pub proof fn lemma_sort_orders_by_rule(s: Seq<Character>, i: int, j: int)
    requires
        0 <= i < sort_by_initiative(s).len(),
        0 <= j < sort_by_initiative(s).len(),
        precedes(sort_by_initiative(s)[i], sort_by_initiative(s)[j]),
    ensures
        i < j,
{
    lemma_sort_in_turn_order(s);
}

/// `sorted_insert` adds exactly one occurrence of `c`'s id and keeps every
/// other count.
proof fn lemma_sorted_insert_count(s: Seq<Character>, c: Character, id: Uid)
    ensures
        count_with_id(sorted_insert(s, c), id) == count_with_id(s, id) + (if c.id == id {
            1nat
        } else {
            0nat
        }),
    decreases s.len(),
{
    reveal_with_fuel(count_with_id, 3);
    let r = sorted_insert(s, c);
    if s.len() == 0 {
        assert(r.drop_first() =~= Seq::<Character>::empty());
    } else if precedes(c, s[0]) {
        assert(r.drop_first() =~= s);
        assert(r[0] == c);
    } else {
        let rest = s.drop_first();
        lemma_sorted_insert_count(rest, c, id);
        assert(r.drop_first() =~= sorted_insert(rest, c));
        assert(r[0] == s[0]);
    }
}

/// Appending one character raises its id's count by one and keeps the rest.
proof fn lemma_count_push(s: Seq<Character>, c: Character, id: Uid)
    ensures
        count_with_id(s.push(c), id) == count_with_id(s, id) + (if c.id == id {
            1nat
        } else {
            0nat
        }),
    decreases s.len(),
{
    reveal_with_fuel(count_with_id, 3);
    if s.len() == 0 {
        assert(s.push(c).drop_first() =~= Seq::<Character>::empty());
        assert(s.push(c)[0] == c);
    } else {
        assert(s.push(c).drop_first() =~= s.drop_first().push(c));
        assert(s.push(c)[0] == s[0]);
        lemma_count_push(s.drop_first(), c, id);
    }
}

/// The stable sort keeps every id's count.
pub proof fn lemma_sort_count(s: Seq<Character>, id: Uid)
    ensures
        count_with_id(sort_by_initiative(s), id) == count_with_id(s, id),
    decreases s.len(),
{
    if s.len() > 0 {
        lemma_sort_count(s.drop_last(), id);
        lemma_sorted_insert_count(sort_by_initiative(s.drop_last()), s.last(), id);
        assert(s =~= s.drop_last().push(s.last()));
        lemma_count_push(s.drop_last(), s.last(), id);
    }
}

/// A positive count is the same as some character carrying the id.
pub proof fn lemma_count_pos_iff_has(s: Seq<Character>, id: Uid)
    ensures
        count_with_id(s, id) > 0 <==> has_character_with_id(s, id),
    decreases s.len(),
{
    if s.len() > 0 {
        lemma_count_pos_iff_has(s.drop_first(), id);
        if count_with_id(s, id) > 0 && s[0].id != id {
            let w = choose|i: int|
                0 <= i < s.drop_first().len() && s.drop_first()[i].id == id;
            assert(s[w + 1] == s.drop_first()[w]);
        }
        if has_character_with_id(s, id) && s[0].id != id {
            let w = choose|i: int| 0 <= i < s.len() && s[i].id == id;
            assert(s.drop_first()[w - 1] == s[w]);
        }
    }
}

/// Adding a character whose id is absent yields a roster with exactly one
/// entry carrying that id; since the id is then present, a second add of the
/// same character is a no-op by `Encounter::add_character`'s contract.
pub proof fn lemma_add_character_idempotent(s: Seq<Character>, c: Character)
    requires
        count_with_id(s, c.id) == 0,
    ensures
        count_with_id(sort_by_initiative(s.push(c)), c.id) == 1,
        has_character_with_id(sort_by_initiative(s.push(c)), c.id),
{
    lemma_count_push(s, c, c.id);
    lemma_sort_count(s.push(c), c.id);
    lemma_count_pos_iff_has(sort_by_initiative(s.push(c)), c.id);
}

impl PartialOrd for Character {
    /// The turn-order rule as a comparison: `Less` when `self` acts strictly
    /// before `other`, `Greater` when strictly after, `Equal` on a full tie.
    fn partial_cmp(&self, other: &Character) -> (r: Option<Ordering>) {
        if self.initiative > other.initiative {
            Some(Ordering::Less)
        } else if other.initiative > self.initiative {
            Some(Ordering::Greater)
        } else if self.initiative_modifier > other.initiative_modifier {
            Some(Ordering::Less)
        } else if other.initiative_modifier > self.initiative_modifier {
            Some(Ordering::Greater)
        } else {
            Some(Ordering::Equal)
        }
    }
}

impl vstd::std_specs::cmp::PartialOrdSpecImpl for Character {
    open spec fn obeys_partial_cmp_spec() -> bool {
        true
    }

    open spec fn partial_cmp_spec(&self, other: &Character) -> Option<Ordering> {
        if precedes(*self, *other) {
            Some(Ordering::Less)
        } else if precedes(*other, *self) {
            Some(Ordering::Greater)
        } else {
            Some(Ordering::Equal)
        }
    }
}

/// The position at which `sorted_insert` would place `c` in `v`.
fn insertion_index(v: &Vec<Character>, c: &Character) -> (r: usize)
    ensures
        0 <= r <= v@.len(),
        forall|k: int| 0 <= k < r ==> !precedes(*c, v@[k]),
        r < v@.len() ==> precedes(*c, v@[r as int]),
{
    let mut j: usize = 0;
    while j < v.len()
        invariant
            0 <= j <= v@.len(),
            forall|k: int| 0 <= k < j ==> !precedes(*c, v@[k]),
        decreases v@.len() - j,
    {
        if c < &v[j] {
            return j;
        }
        j += 1;
    }
    j
}

/// A copy of `v`: element-wise clones, in the same order.
pub fn clone_characters(v: &Vec<Character>) -> (r: Vec<Character>)
    ensures
        r@ == v@,
{
    let r = v.clone();
    proof {
        assert forall|i: int| 0 <= i < r@.len() implies r@[i] == v@[i] by {
            assert(vstd::pervasive::cloned::<Character>(v@[i], r@[i]));
        }
        assert(r@ =~= v@);
    }
    r
}

/// A copy of `v` rearranged into turn order by the stable sort.
pub fn sort_characters(v: &Vec<Character>) -> (r: Vec<Character>)
    ensures
        r@ == sort_by_initiative(v@),
{
    let mut out: Vec<Character> = Vec::new();
    let mut i: usize = 0;
    while i < v.len()
        invariant
            0 <= i <= v@.len(),
            out@ == sort_by_initiative(v@.take(i as int)),
        decreases v@.len() - i,
    {
        let c = v[i].clone();
        let j = insertion_index(&out, &c);
        let ghost prev = out@;
        out.insert(j, c);
        proof {
            lemma_sorted_insert_at(prev, c, j as int);
            assert(out@ =~= prev.subrange(0, j as int) + seq![c] + prev.subrange(
                j as int,
                prev.len() as int,
            ));
            assert(v@.take(i + 1).drop_last() =~= v@.take(i as int));
            assert(v@.take(i + 1).last() == v@[i as int]);
        }
        i += 1;
    }
    proof {
        assert(v@.take(v@.len() as int) =~= v@);
    }
    out
}

} // verus!
