//! Conversion between a per-core selection and a CPU affinity bitmask.
use vstd::prelude::*;

verus! {

/// The largest number of cores an affinity mask can describe.
pub const MAX_CORES: usize = 64;

/// Whether bit `i` of `mask` is set.
pub open spec fn bit_set(mask: u64, i: u64) -> bool {
    (mask >> i) & 1u64 == 1u64
}

/// The mask whose set bits are exactly the selected cores of `selection`.
pub open spec fn is_mask_of(mask: u64, selection: Seq<bool>) -> bool {
    forall|i: u64| i < 64 ==> (#[trigger] bit_set(mask, i) <==> (i < selection.len() && selection[i as int]))
}

proof fn lemma_zero_has_no_bits(i: u64)
    requires
        i < 64,
    ensures
        !bit_set(0u64, i),
{
    assert((0u64 >> i) & 1u64 != 1u64) by (bit_vector)
        requires
            i < 64,
    ;
}

proof fn lemma_or_bit(mask: u64, k: u64, i: u64)
    requires
        k < 64,
        i < 64,
    ensures
        bit_set(mask | (1u64 << k), i) <==> (bit_set(mask, i) || i == k),
{
    assert((((mask | (1u64 << k)) >> i) & 1u64 == 1u64) <==> (((mask >> i) & 1u64 == 1u64) || i
        == k)) by (bit_vector)
        requires
            k < 64,
            i < 64,
    ;
}

/// Folds a per-core selection into a bitmask: bit `i` is set exactly when
/// core `i` is selected.
pub fn calculate_affinity_mask(core_selections: &[bool]) -> (mask: u64)
    requires
        core_selections@.len() <= MAX_CORES,
    ensures
        is_mask_of(mask, core_selections@),
{
    let mut mask: u64 = 0;
    let mut k: usize = 0;
    proof {
        assert forall|i: u64| i < 64 implies !bit_set(0u64, i) by {
            lemma_zero_has_no_bits(i);
        }
    }
    while k < core_selections.len()
        invariant
            k <= core_selections@.len() <= 64,
            forall|i: u64|
                i < 64 ==> (#[trigger] bit_set(mask, i) <==> (i < k && core_selections@[i as int])),
        decreases core_selections@.len() - k,
    {
        if core_selections[k] {
            let ghost old_mask = mask;
            mask = mask | (1u64 << (k as u64));
            proof {
                assert forall|i: u64| i < 64 implies (bit_set(mask, i) <==> (bit_set(old_mask, i)
                    || i == k as u64)) by {
                    lemma_or_bit(old_mask, k as u64, i);
                }
            }
        }
        k = k + 1;
    }
    mask
}

} // verus!
