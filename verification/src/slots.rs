//! Ad slots and the registry that holds them.

use crate::clock::clamp_instant;
use crate::ids::new_uuid;
use crate::text::{decimal, str_eq, u64_to_decimal};
use dashmap::DashSet;
use vstd::prelude::*;
use vstd::string::*;

verus! {

/// A scheduled, addressable ad break.
#[derive(Clone, Copy, Debug, PartialEq, Eq, Structural)]
pub struct AdSlot {
    /// Identity token, drawn at random when the slot is made.
    pub id: u128,
    /// Index that names the slot.
    pub index: u64,
    /// Start, in milliseconds since the epoch.
    pub start_time: i64,
    /// Nominal duration in seconds.
    pub duration: u64,
    /// How many ads the ad server is asked to pack into the break.
    pub pod_num: u64,
}

/// The name under which a player asks for the slot with this index.
pub open spec fn slot_name(index: u64) -> Seq<char> {
    "ad_slot"@ + decimal(index as nat)
}

impl AdSlot {
    /// The slot's name: `ad_slot` followed by its index.
    pub fn name(&self) -> (r: String)
        ensures
            r@ == slot_name(self.index),
    {
        let mut r = String::from_str("ad_slot");
        let digits = u64_to_decimal(self.index);
        r.append(digits.as_str());
        r
    }
}

#[verifier::external_type_specification]
#[verifier::external_body]
#[verifier::reject_recursive_types(K)]
#[verifier::reject_recursive_types(S)]
pub struct ExDashSet<K, S>(DashSet<K, S>);

/// The slots that a set holds: one for each tuple in it, whose fields are the
/// tuple's components in the order id, index, start, duration, pod count.
pub uninterp spec fn slot_set(set: DashSet<(u128, u64, i64, u64, u64)>) -> Set<AdSlot>;

/// `set` is finite and has `n` members.
pub open spec fn has_len(set: Set<AdSlot>, n: nat) -> bool {
    set.finite() && set.len() == n
}

/// `DashSet::new`: a set that holds nothing.
#[verifier::external_body]
fn slot_set_new() -> (set: DashSet<(u128, u64, i64, u64, u64)>)
    ensures
        slot_set(set) == Set::<AdSlot>::empty(),
{
    DashSet::new()
}

/// `DashSet::insert` under exclusive access: afterwards the set holds what it
/// held before and the given slot.
#[verifier::external_body]
fn slot_set_insert(set: &mut DashSet<(u128, u64, i64, u64, u64)>, slot: AdSlot)
    ensures
        slot_set(*final(set)) == slot_set(*old(set)).insert(slot),
{
    set.insert((slot.id, slot.index, slot.start_time, slot.duration, slot.pod_num));
}

/// `DashSet::len`: the number of slots held, which is finite.
#[verifier::external_body]
fn slot_set_len(set: &DashSet<(u128, u64, i64, u64, u64)>) -> (n: usize)
    ensures
        has_len(slot_set(*set), n as nat),
{
    set.len()
}

/// `DashSet::is_empty`: whether the set holds nothing.
#[verifier::external_body]
fn slot_set_is_empty(set: &DashSet<(u128, u64, i64, u64, u64)>) -> (b: bool)
    ensures
        b == (slot_set(*set) == Set::<AdSlot>::empty()),
{
    set.is_empty()
}

/// `DashSet::iter`, collected: every slot held, each once. The order is the
/// one in which the set happens to be walked, of which nothing is known.
#[verifier::external_body]
fn slot_set_snapshot(set: &DashSet<(u128, u64, i64, u64, u64)>) -> (v: Vec<AdSlot>)
    ensures
        v@.no_duplicates(),
        forall|s: AdSlot| v@.contains(s) <==> slot_set(*set).contains(s),
{
    set.iter().map(
        |t| AdSlot { id: t.0, index: t.1, start_time: t.2, duration: t.3, pod_num: t.4 },
    ).collect()
}

/// The registry of pending ad slots. Changing it takes exclusive access:
/// tasks that share one keep it behind a lock.
pub struct AvailableAdSlots {
    slots: DashSet<(u128, u64, i64, u64, u64)>,
}

impl AvailableAdSlots {
    /// The slots in the registry.
    pub closed spec fn view(&self) -> Set<AdSlot> {
        slot_set(self.slots)
    }

    /// An empty registry.
    pub fn new() -> (r: Self)
        ensures
            r@ == Set::<AdSlot>::empty(),
    {
        AvailableAdSlots { slots: slot_set_new() }
    }

    /// Adds a slot. A slot that is already there stays once.
    pub fn insert(&mut self, slot: AdSlot)
        ensures
            final(self)@ == old(self)@.insert(slot),
    {
        slot_set_insert(&mut self.slots, slot);
    }

    /// The number of slots.
    pub fn len(&self) -> (n: usize)
        ensures
            self@.finite(),
            n == self@.len(),
    {
        slot_set_len(&self.slots)
    }

    /// Whether the registry holds no slot.
    pub fn is_empty(&self) -> (b: bool)
        ensures
            b == (self@ == Set::<AdSlot>::empty()),
    {
        slot_set_is_empty(&self.slots)
    }

    /// Adds every slot of `slots`.
    pub fn extend(&mut self, slots: &Vec<AdSlot>)
        ensures
            final(self)@ == old(self)@.union(slots@.to_set()),
    {
        let mut i: usize = 0;
        while i < slots.len()
            invariant
                i <= slots.len(),
                self@ == old(self)@.union(slots@.take(i as int).to_set()),
            decreases slots.len() - i,
        {
            self.insert(slots[i]);
            assert(slots@.take(i + 1) =~= slots@.take(i as int).push(slots@[i as int]));
            assert(slots@.take(i + 1).to_set() =~= slots@.take(i as int).to_set().insert(
                slots@[i as int],
            )) by {
                let shorter = slots@.take(i as int);
                let longer = slots@.take(i + 1);
                assert forall|s: AdSlot| longer.contains(s) <==> (shorter.contains(s) || s
                    == slots@[i as int]) by {
                    if longer.contains(s) {
                        let j = choose|j: int| 0 <= j < longer.len() && longer[j] == s;
                        if j < i {
                            assert(shorter[j] == s);
                        }
                    }
                    if shorter.contains(s) {
                        let j = choose|j: int| 0 <= j < shorter.len() && shorter[j] == s;
                        assert(longer[j] == s);
                    }
                    if s == slots@[i as int] {
                        assert(longer[i as int] == s);
                    }
                }
            }
            i += 1;
        }
        assert(slots@.take(i as int) =~= slots@);
    }

    /// A slot with the given name, if the registry holds one.
    pub fn find_by_name(&self, name: &str) -> (r: Option<AdSlot>)
        ensures
            match r {
                Some(slot) => self@.contains(slot) && slot_name(slot.index) == name@,
                None => forall|s: AdSlot| self@.contains(s) ==> slot_name(s.index) != name@,
            },
    {
        let slots = self.snapshot();
        let mut i: usize = 0;
        while i < slots.len()
            invariant
                i <= slots.len(),
                is_enumeration(slots@, self@),
                forall|j: int| 0 <= j < i ==> slot_name(slots@[j].index) != name@,
            decreases slots.len() - i,
        {
            let candidate = slots[i].name();
            if str_eq(candidate.as_str(), name) {
                assert(slots@.contains(slots@[i as int]));
                return Some(slots[i]);
            }
            i += 1;
        }
        assert forall|s: AdSlot| self@.contains(s) implies slot_name(s.index) != name@ by {
            assert(slots@.contains(s));
            let j = choose|j: int| 0 <= j < slots@.len() && slots@[j] == s;
            assert(slot_name(slots@[j].index) != name@);
        }
        None
    }

    /// Every slot of the registry, each once, in the order in which the
    /// registry happens to enumerate them.
    pub fn snapshot(&self) -> (v: Vec<AdSlot>)
        ensures
            is_enumeration(v@, self@),
    {
        slot_set_snapshot(&self.slots)
    }

    /// Every slot of the registry, each once, in the registry's own order:
    /// by index, then by start, duration, pod count and identity. The
    /// order depends on nothing but the slots held.
    pub fn ordered(&self) -> (v: Vec<AdSlot>)
        ensures
            is_enumeration(v@, self@),
            is_ordered(v@),
    {
        sort_slots(self.snapshot())
    }
}

impl Default for AvailableAdSlots {
    /// An empty registry.
    fn default() -> (r: Self)
        ensures
            r@ == Set::<AdSlot>::empty(),
    {
        AvailableAdSlots::new()
    }
}

/// `list` names every member of `set` exactly once and nothing else.
pub open spec fn is_enumeration(list: Seq<AdSlot>, set: Set<AdSlot>) -> bool {
    &&& list.no_duplicates()
    &&& forall|s: AdSlot| list.contains(s) <==> set.contains(s)
}

/// `a` comes before `b` in the registry's order: the slot with the lower
/// index first; among slots of one index the earlier start, then the
/// shorter duration, the smaller pod and the lower identity.
pub open spec fn precedes(a: AdSlot, b: AdSlot) -> bool {
    if a.index != b.index {
        a.index < b.index
    } else if a.start_time != b.start_time {
        a.start_time < b.start_time
    } else if a.duration != b.duration {
        a.duration < b.duration
    } else if a.pod_num != b.pod_num {
        a.pod_num < b.pod_num
    } else {
        a.id < b.id
    }
}

/// Every slot of the list comes before every later one.
pub open spec fn is_ordered(list: Seq<AdSlot>) -> bool {
    forall|i: int, j: int| 0 <= i < j < list.len() ==> precedes(list[i], list[j])
}

fn comes_before(a: &AdSlot, b: &AdSlot) -> (r: bool)
    ensures
        r == precedes(*a, *b),
{
    if a.index != b.index {
        a.index < b.index
    } else if a.start_time != b.start_time {
        a.start_time < b.start_time
    } else if a.duration != b.duration {
        a.duration < b.duration
    } else if a.pod_num != b.pod_num {
        a.pod_num < b.pod_num
    } else {
        a.id < b.id
    }
}

/// Puts slots into the registry's order.
pub fn sort_slots(slots: Vec<AdSlot>) -> (sorted: Vec<AdSlot>)
    requires
        slots@.no_duplicates(),
    ensures
        is_ordered(sorted@),
        sorted@.no_duplicates(),
        forall|s: AdSlot| sorted@.contains(s) <==> slots@.contains(s),
{
    let mut sorted: Vec<AdSlot> = Vec::new();
    let mut k: usize = 0;
    while k < slots.len()
        invariant
            k <= slots.len(),
            slots@.no_duplicates(),
            is_ordered(sorted@),
            forall|s: AdSlot| sorted@.contains(s) <==> slots@.take(k as int).contains(s),
        decreases slots.len() - k,
    {
        let slot = slots[k];
        let ghost before = sorted@;
        assert(!before.contains(slot)) by {
            if slots@.take(k as int).contains(slot) {
                let i = choose|i: int|
                    0 <= i < slots@.take(k as int).len() && slots@.take(k as int)[i] == slot;
                assert(slots@[i] == slots@[k as int]);
            }
        }
        let mut at: usize = 0;
        while at < sorted.len() && !comes_before(&slot, &sorted[at])
            invariant
                at <= sorted.len(),
                sorted@ == before,
                forall|i: int| 0 <= i < at ==> !precedes(slot, sorted@[i]),
            decreases sorted.len() - at,
        {
            at += 1;
        }
        sorted.insert(at, slot);
        proof {
            assert forall|i: int, j: int| 0 <= i < j < sorted@.len() implies precedes(
                sorted@[i],
                sorted@[j],
            ) by {
                if j == at {
                    assert(before.contains(before[i]));
                    assert(!precedes(slot, before[i]));
                } else if i == at {
                    assert(precedes(slot, before[at as int]));
                    if j > at + 1 {
                        assert(precedes(before[at as int], before[j - 1]));
                    }
                } else {
                    let i0 = if i < at { i } else { i - 1 };
                    let j0 = if j < at { j } else { j - 1 };
                    assert(precedes(before[i0], before[j0]));
                }
            }
            let shorter = slots@.take(k as int);
            let longer = slots@.take(k + 1);
            assert(longer =~= shorter.push(slot));
            assert forall|s: AdSlot| sorted@.contains(s) <==> longer.contains(s) by {
                if sorted@.contains(s) {
                    let i = choose|i: int| 0 <= i < sorted@.len() && sorted@[i] == s;
                    if i == at {
                        assert(longer[k as int] == s);
                    } else {
                        let i0 = if i < at { i } else { i - 1 };
                        assert(before[i0] == s);
                        assert(before.contains(s));
                        let j = choose|j: int| 0 <= j < shorter.len() && shorter[j] == s;
                        assert(longer[j] == s);
                    }
                }
                if longer.contains(s) {
                    let j = choose|j: int| 0 <= j < longer.len() && longer[j] == s;
                    if j == k {
                        assert(sorted@[at as int] == s);
                    } else {
                        assert(shorter[j] == s);
                        assert(before.contains(s));
                        let i = choose|i: int| 0 <= i < before.len() && before[i] == s;
                        let i1 = if i < at { i } else { i + 1 };
                        assert(sorted@[i1] == s);
                    }
                }
            }
        }
        k += 1;
    }
    assert(slots@.take(k as int) =~= slots@);
    proof {
        lemma_ordered_has_no_duplicates(sorted@);
    }
    sorted
}

/// A list in the registry's order names no slot twice.
pub proof fn lemma_ordered_has_no_duplicates(list: Seq<AdSlot>)
    requires
        is_ordered(list),
    ensures
        list.no_duplicates(),
{
    assert forall|i: int, j: int|
        0 <= i < list.len() && 0 <= j < list.len() && i != j implies list[i] != list[j] by {
        if i < j {
            assert(precedes(list[i], list[j]));
        } else {
            assert(precedes(list[j], list[i]));
        }
    }
}

/// Where slot `i` of a repeating schedule starts: `i` cycles after the
/// anchor, held within the range of instants.
pub open spec fn static_slot_start(anchor: i64, every: u64, i: int) -> i64 {
    clamp_instant(anchor + i * every * 1000)
}

/// `slots` is the repeating schedule of `number - 1` breaks: the break at
/// position `k` has index `k + 1`, starts `k + 1` cycles after the anchor,
/// lasts `ad_duration` seconds and asks for a pod of two.
pub open spec fn is_static_schedule(
    slots: Seq<AdSlot>,
    ad_duration: u64,
    every: u64,
    number: u64,
    anchor: i64,
) -> bool {
    &&& slots.len() == if number >= 1 {
        number - 1
    } else {
        0
    }
    &&& forall|k: int|
        0 <= k < slots.len() ==> {
            &&& (#[trigger] slots[k]).index == k + 1
            &&& slots[k].start_time == static_slot_start(anchor, every, k + 1)
            &&& slots[k].duration == ad_duration
            &&& slots[k].pod_num == 2
        }
}

pub(crate) fn static_start(anchor: i64, every: u64, i: u64) -> (r: i64)
    ensures
        r == static_slot_start(anchor, every, i as int),
{
    assert(i * every <= 0xffff_ffff_ffff_ffff * 0xffff_ffff_ffff_ffff) by (nonlinear_arith)
        requires
            0 <= i <= 0xffff_ffff_ffff_ffff,
            0 <= every <= 0xffff_ffff_ffff_ffff,
    ;
    let cycles: u128 = (i as u128) * (every as u128);
    if cycles > 18_446_744_073_709_552 {
        assert(i * every * 1000 > 18_446_744_073_709_552_000);
        i64::MAX
    } else {
        let total: i128 = anchor as i128 + (cycles as i128) * 1000;
        if total > i64::MAX as i128 {
            i64::MAX
        } else {
            total as i64
        }
    }
}

/// Lays out the repeating schedule: one break per cycle after `date_time`,
/// `number - 1` of them, each with a fresh identity.
pub fn generate_static_ad_slots(ad_duration: u64, every: u64, number: u64, date_time: i64) -> (slots:
    Vec<AdSlot>)
    ensures
        is_static_schedule(slots@, ad_duration, every, number, date_time),
{
    let mut slots: Vec<AdSlot> = Vec::new();
    let mut i: u64 = 1;
    while i < number
        invariant
            1 <= i,
            i <= number || (number == 0 && i == 1),
            slots@.len() == i - 1,
            forall|k: int|
                0 <= k < slots@.len() ==> {
                    &&& (#[trigger] slots@[k]).index == k + 1
                    &&& slots@[k].start_time == static_slot_start(date_time, every, k + 1)
                    &&& slots@[k].duration == ad_duration
                    &&& slots@[k].pod_num == 2
                },
        decreases number - i,
    {
        let slot = AdSlot {
            id: new_uuid(),
            index: i,
            start_time: static_start(date_time, every, i),
            duration: ad_duration,
            pod_num: 2,
        };
        slots.push(slot);
        i += 1;
    }
    slots
}

} // verus!
