//! Laws of slot names and of the registry's indices.

use crate::slots::{is_enumeration, is_ordered, is_static_schedule, precedes, slot_name, AdSlot};
use crate::text::{all_digits, decimal, digit_char, digit_value, digits_value, is_digit, parsed_u64};
use vstd::prelude::*;

verus! {

/// No two slots of the set share an index.
pub open spec fn indices_unique(slots: Set<AdSlot>) -> bool {
    forall|a: AdSlot, b: AdSlot|
        slots.contains(a) && slots.contains(b) && a.index == b.index ==> a == b
}

/// Every index in the set lies below `n`.
pub open spec fn indices_below(slots: Set<AdSlot>, n: nat) -> bool {
    forall|s: AdSlot| slots.contains(s) ==> s.index < n
}

/// Law of decimal numbers: a number written out is a run of digits that
/// reads back as the number.
pub proof fn lemma_decimal_reads_back(n: nat)
    ensures
        decimal(n).len() > 0,
        all_digits(decimal(n)),
        digits_value(decimal(n)) == n,
    decreases n,
{
    let d = digit_char((n % 10) as int);
    assert(is_digit(d) && digit_value(d) == n % 10);
    if n < 10 {
        assert(decimal(n).drop_last() =~= Seq::<char>::empty());
        assert(digits_value(decimal(n).drop_last()) == 0);
    } else {
        lemma_decimal_reads_back(n / 10);
        assert(decimal(n).drop_last() =~= decimal(n / 10));
    }
}

/// Law of decimal numbers: what [`crate::text::u64_to_decimal`] writes,
/// [`crate::text::parse_u64`] reads back.
pub proof fn lemma_decimal_parses(n: u64)
    ensures
        parsed_u64(decimal(n as nat)) == Some(n),
{
    lemma_decimal_reads_back(n as nat);
    let text = decimal(n as nat);
    assert(is_digit(text[0]));
}

/// Law of slot names: slots with different indices have different names.
pub proof fn lemma_slot_names_differ(a: u64, b: u64)
    requires
        a != b,
    ensures
        slot_name(a) != slot_name(b),
{
    lemma_decimal_reads_back(a as nat);
    lemma_decimal_reads_back(b as nat);
    let prefix = "ad_slot"@;
    if slot_name(a) == slot_name(b) {
        assert(slot_name(a).subrange(prefix.len() as int, slot_name(a).len() as int) =~= decimal(
            a as nat,
        ));
        assert(slot_name(b).subrange(prefix.len() as int, slot_name(b).len() as int) =~= decimal(
            b as nat,
        ));
    }
}

/// Law of the registry: a slot injected under the index that equals the
/// number of slots held keeps the indices unique, as long as every index
/// held lay below that number; and the same holds again afterwards.
pub proof fn lemma_injection_keeps_indices_unique(before: Set<AdSlot>, slot: AdSlot)
    requires
        before.finite(),
        indices_unique(before),
        indices_below(before, before.len()),
        slot.index == before.len(),
    ensures
        indices_unique(before.insert(slot)),
        indices_below(before.insert(slot), before.insert(slot).len()),
{
    assert(!before.contains(slot));
}

/// Law of the registry: the slots of a repeating schedule have indices of
/// their own.
pub proof fn lemma_schedule_indices_unique(
    schedule: Seq<AdSlot>,
    ad_duration: u64,
    every: u64,
    number: u64,
    anchor: i64,
)
    requires
        is_static_schedule(schedule, ad_duration, every, number, anchor),
    ensures
        indices_unique(schedule.to_set()),
{
    assert forall|a: AdSlot, b: AdSlot|
        schedule.to_set().contains(a) && schedule.to_set().contains(b) && a.index
            == b.index implies a == b by {
        let i = choose|i: int| 0 <= i < schedule.len() && schedule[i] == a;
        let j = choose|j: int| 0 <= j < schedule.len() && schedule[j] == b;
        assert(schedule[i].index == i + 1);
        assert(schedule[j].index == j + 1);
    }
}


/// Law of the registry's order: a set of slots has one enumeration in that
/// order and no other.
pub proof fn lemma_ordered_enumeration_unique(a: Seq<AdSlot>, b: Seq<AdSlot>, set: Set<AdSlot>)
    requires
        is_enumeration(a, set),
        is_enumeration(b, set),
        is_ordered(a),
        is_ordered(b),
    ensures
        a == b,
    decreases a.len(),
{
    if a.len() == 0 {
        if b.len() > 0 {
            assert(b.contains(b[0]));
            assert(a.contains(b[0]));
        }
        assert(a =~= b);
    } else {
        assert(a.contains(a[0]));
        assert(b.contains(a[0]));
        let k = choose|k: int| 0 <= k < b.len() && b[k] == a[0];
        assert(b.contains(b[0]));
        assert(a.contains(b[0]));
        let j = choose|j: int| 0 <= j < a.len() && a[j] == b[0];
        if k > 0 {
            assert(precedes(b[0], b[k]));
            if j > 0 {
                assert(precedes(a[0], a[j]));
            }
        }
        assert(a[0] == b[0]);
        let rest = set.remove(a[0]);
        let a1 = a.drop_first();
        let b1 = b.drop_first();
        assert forall|s: AdSlot| a1.contains(s) <==> rest.contains(s) by {
            if a1.contains(s) {
                let i = choose|i: int| 0 <= i < a1.len() && a1[i] == s;
                assert(a[i + 1] == s);
                assert(a.contains(s));
                assert(precedes(a[0], a[i + 1]));
            }
            if rest.contains(s) {
                assert(a.contains(s));
                let i = choose|i: int| 0 <= i < a.len() && a[i] == s;
                assert(a1[i - 1] == s);
            }
        }
        assert forall|s: AdSlot| b1.contains(s) <==> rest.contains(s) by {
            if b1.contains(s) {
                let i = choose|i: int| 0 <= i < b1.len() && b1[i] == s;
                assert(b[i + 1] == s);
                assert(b.contains(s));
                assert(precedes(b[0], b[i + 1]));
            }
            if rest.contains(s) {
                assert(b.contains(s));
                let i = choose|i: int| 0 <= i < b.len() && b[i] == s;
                assert(b1[i - 1] == s);
            }
        }
        assert forall|i: int, j: int| 0 <= i < j < a1.len() implies precedes(a1[i], a1[j]) by {
            assert(precedes(a[i + 1], a[j + 1]));
        }
        assert forall|i: int, j: int| 0 <= i < j < b1.len() implies precedes(b1[i], b1[j]) by {
            assert(precedes(b[i + 1], b[j + 1]));
        }
        crate::slots::lemma_ordered_has_no_duplicates(a1);
        crate::slots::lemma_ordered_has_no_duplicates(b1);
        lemma_ordered_enumeration_unique(a1, b1, rest);
        assert(a =~= seq![a[0]] + a1);
        assert(b =~= seq![b[0]] + b1);
    }
}

} // verus!
