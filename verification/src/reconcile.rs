//! Index Reconciler: folds the raw on-disk id table into the derived file-id
//! index, one slot per MFT entry, keyed positionally by each pair's base_id.

use vstd::prelude::*;

use crate::ArchiveError;

verus! {

/// One record of the raw on-disk id table, and also one reconciled slot of
/// the derived file-id index (default `(0, 0)` means "unassigned").
#[derive(Clone, Copy, Debug, Default, PartialEq, Eq, Structural)]
pub struct AnetIdEntry {
    pub file_id: u32,
    pub base_id: u32,
}

/// The unassigned slot value.
pub open spec fn empty_slot() -> AnetIdEntry {
    AnetIdEntry { file_id: 0, base_id: 0 }
}

/// A fresh index: one unassigned slot per MFT entry.
pub open spec fn initial_slots(n: nat) -> Seq<AnetIdEntry> {
    Seq::new(n, |i: int| empty_slot())
}

/// Folds one raw pair into the index. The pair's base_id picks the slot; the
/// first file_id seen fills the slot's base_id, the second its file_id, and
/// later contributions are dropped; a fully assigned slot is then kept with
/// base_id <= file_id by swapping the two fields.
pub open spec fn apply_pair(slots: Seq<AnetIdEntry>, p: AnetIdEntry) -> Seq<AnetIdEntry>
    recommends
        p.base_id < slots.len(),
{
    if p.base_id >= slots.len() {
        slots
    } else {
        apply_pair_at(slots, p)
    }
}

/// The in-range case of `apply_pair`.
pub open spec fn apply_pair_at(slots: Seq<AnetIdEntry>, p: AnetIdEntry) -> Seq<AnetIdEntry>
    recommends
        p.base_id < slots.len(),
{
    let k = p.base_id as int;
    let s = slots[k];
    let assigned = if s.base_id == 0 {
        AnetIdEntry { file_id: s.file_id, base_id: p.file_id }
    } else if s.file_id == 0 {
        AnetIdEntry { file_id: p.file_id, base_id: s.base_id }
    } else {
        s
    };
    let canonical = if assigned.base_id > 0 && assigned.file_id > 0
        && assigned.base_id > assigned.file_id {
        AnetIdEntry { file_id: assigned.base_id, base_id: assigned.file_id }
    } else {
        assigned
    };
    slots.update(k, canonical)
}

/// The index that results from folding every pair, in order, into `slots`.
pub open spec fn reconcile_spec(slots: Seq<AnetIdEntry>, pairs: Seq<AnetIdEntry>) -> Seq<AnetIdEntry>
    decreases pairs.len(),
{
    if pairs.len() == 0 {
        slots
    } else {
        reconcile_spec(apply_pair(slots, pairs[0]), pairs.drop_first())
    }
}

/// All pair keys address a slot of an index of length `n`.
pub open spec fn pairs_in_bounds(pairs: Seq<AnetIdEntry>, n: int) -> bool {
    forall|i: int| 0 <= i < pairs.len() ==> pairs[i].base_id < n
}

/// A slot with both ids assigned carries them in canonical order.
pub open spec fn slot_ordered(s: AnetIdEntry) -> bool {
    s.base_id > 0 && s.file_id > 0 ==> s.base_id <= s.file_id
}

pub proof fn lemma_reconcile_len(slots: Seq<AnetIdEntry>, pairs: Seq<AnetIdEntry>)
    ensures
        reconcile_spec(slots, pairs).len() == slots.len(),
    decreases pairs.len(),
{
    if pairs.len() > 0 {
        lemma_reconcile_len(apply_pair(slots, pairs[0]), pairs.drop_first());
    }
}

/// Folding pairs one at a time from the left agrees with folding them all.
proof fn lemma_reconcile_snoc(slots: Seq<AnetIdEntry>, pairs: Seq<AnetIdEntry>, p: AnetIdEntry)
    ensures
        reconcile_spec(slots, pairs.push(p)) == apply_pair(reconcile_spec(slots, pairs), p),
    decreases pairs.len(),
{
    reveal_with_fuel(reconcile_spec, 3);
    if pairs.len() == 0 {
        assert(pairs.push(p)[0] == p);
        assert(pairs.push(p).drop_first() =~= Seq::<AnetIdEntry>::empty());
    } else {
        assert(pairs.push(p)[0] == pairs[0]);
        assert(pairs.push(p).drop_first() =~= pairs.drop_first().push(p));
        lemma_reconcile_snoc(apply_pair(slots, pairs[0]), pairs.drop_first(), p);
    }
}

proof fn lemma_apply_pair_keeps_order(slots: Seq<AnetIdEntry>, p: AnetIdEntry)
    requires
        forall|k: int| 0 <= k < slots.len() ==> slot_ordered(#[trigger] slots[k]),
    ensures
        forall|k: int|
            0 <= k < slots.len() ==> slot_ordered(#[trigger] apply_pair(slots, p)[k]),
{
}

/// Ordering law of the reconciled index: however the raw pairs run, every
/// slot of the index built from them that has both ids assigned satisfies
/// base_id <= file_id.
pub proof fn lemma_reconciled_index_ordered(slots: Seq<AnetIdEntry>, pairs: Seq<AnetIdEntry>)
    requires
        forall|k: int| 0 <= k < slots.len() ==> slot_ordered(#[trigger] slots[k]),
    ensures
        forall|k: int|
            0 <= k < slots.len() ==> slot_ordered(#[trigger] reconcile_spec(slots, pairs)[k]),
    decreases pairs.len(),
{
    if pairs.len() > 0 {
        let s1 = apply_pair(slots, pairs[0]);
        lemma_apply_pair_keeps_order(slots, pairs[0]);
        assert(s1.len() == slots.len());
        lemma_reconciled_index_ordered(s1, pairs.drop_first());
        assert(reconcile_spec(slots, pairs) == reconcile_spec(s1, pairs.drop_first()));
    }
}

/// Conflict-dropping law: a pair whose key points at a slot with both ids
/// already assigned changes nothing.
pub proof fn lemma_full_slot_drops_pair(slots: Seq<AnetIdEntry>, p: AnetIdEntry)
    requires
        p.base_id < slots.len(),
        slots[p.base_id as int].base_id > 0,
        slots[p.base_id as int].file_id > 0,
        slot_ordered(slots[p.base_id as int]),
    ensures
        apply_pair(slots, p) == slots,
{
    assert(apply_pair(slots, p) =~= slots);
}

/// Conflict-dropping law, stated over three raw pairs sharing one key: the
/// third pair's file_id is not retained.
pub proof fn lemma_third_pair_dropped(
    n: nat,
    p1: AnetIdEntry,
    p2: AnetIdEntry,
    p3: AnetIdEntry,
)
    requires
        p1.base_id == p2.base_id && p2.base_id == p3.base_id,
        p1.base_id < n,
        p1.file_id > 0,
        p2.file_id > 0,
    ensures
        reconcile_spec(initial_slots(n), seq![p1, p2, p3])
            == reconcile_spec(initial_slots(n), seq![p1, p2]),
{
    reveal_with_fuel(reconcile_spec, 5);
    let s0 = initial_slots(n);
    let k = p1.base_id as int;
    let s1 = apply_pair(s0, p1);
    let s2 = apply_pair(s1, p2);
    assert(s1[k].base_id == p1.file_id && s1[k].file_id == 0);
    assert(s2[k].base_id > 0 && s2[k].file_id > 0 && slot_ordered(s2[k]));
    lemma_full_slot_drops_pair(s2, p3);
    assert(seq![p1, p2, p3].drop_first() =~= seq![p2, p3]);
    assert(seq![p2, p3].drop_first() =~= seq![p3]);
    assert(seq![p3].drop_first() =~= Seq::<AnetIdEntry>::empty());
    assert(seq![p1, p2].drop_first() =~= seq![p2]);
    assert(seq![p2].drop_first() =~= Seq::<AnetIdEntry>::empty());
    assert(reconcile_spec(s0, seq![p1, p2, p3]) == apply_pair(s2, p3));
    assert(reconcile_spec(s0, seq![p1, p2]) == s2);
}

/// Reduces the raw id-pair table into the file-id index with `num_slots`
/// slots (one per MFT entry); fails with `IndexError` when some pair's
/// base_id is no valid slot position.
pub fn reconcile_id_pairs(pairs: &Vec<AnetIdEntry>, num_slots: usize) -> (r: Result<
    Vec<AnetIdEntry>,
    ArchiveError,
>)
    ensures
        match r {
            Ok(slots) => pairs_in_bounds(pairs@, num_slots as int) && slots@ == reconcile_spec(
                initial_slots(num_slots as nat),
                pairs@,
            ),
            Err(e) => !pairs_in_bounds(pairs@, num_slots as int) && e
                == ArchiveError::IndexError,
        },
{
    let mut slots: Vec<AnetIdEntry> = Vec::new();
    let mut j: usize = 0;
    while j < num_slots
        invariant
            j <= num_slots,
            slots@.len() == j,
            forall|t: int| 0 <= t < j ==> #[trigger] slots@[t] == empty_slot(),
        decreases num_slots - j,
    {
        slots.push(AnetIdEntry { file_id: 0, base_id: 0 });
        j += 1;
    }
    proof {
        assert(slots@ =~= initial_slots(num_slots as nat));
    }
    let ghost init = slots@;
    let mut i: usize = 0;
    while i < pairs.len()
        invariant
            i <= pairs@.len(),
            init == initial_slots(num_slots as nat),
            slots@.len() == num_slots,
            pairs_in_bounds(pairs@.take(i as int), num_slots as int),
            slots@ == reconcile_spec(init, pairs@.take(i as int)),
        decreases pairs@.len() - i,
    {
        let p = pairs[i];
        let k = p.base_id as usize;
        if k >= num_slots {
            assert(pairs@[i as int].base_id >= num_slots);
            return Err(ArchiveError::IndexError);
        }
        let s = slots[k];
        let mut base = s.base_id;
        let mut file = s.file_id;
        if base == 0 {
            base = p.file_id;
        } else if file == 0 {
            file = p.file_id;
        }
        if base > 0 && file > 0 && base > file {
            let t = base;
            base = file;
            file = t;
        }
        slots[k] = AnetIdEntry { file_id: file, base_id: base };
        proof {
            assert(pairs@.take(i + 1) =~= pairs@.take(i as int).push(p));
            lemma_reconcile_snoc(init, pairs@.take(i as int), p);
            assert(slots@ =~= apply_pair(reconcile_spec(init, pairs@.take(i as int)), p));
        }
        i += 1;
    }
    proof {
        assert(pairs@.take(pairs@.len() as int) =~= pairs@);
    }
    Ok(slots)
}

} // verus!
