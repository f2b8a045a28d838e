//! Workspace pairing math: mapping raw workspace identifiers to a normalized
//! slot in `[1, offset]` and computing cyclic navigation targets.
use vstd::prelude::*;

verus! {

/// Direction for cycling through the paired workspace slots.
#[derive(Debug, Clone, Copy, PartialEq, Eq, Structural)]
pub enum CycleDirection {
    Next,
    Prev,
}

/// The normalized slot of a workspace id: `((id - 1) % offset) + 1`,
/// always in `[1, offset]`.
pub open spec fn spec_normalize(id: int, offset: int) -> int {
    ((id - 1) % offset) + 1
}

/// Maps a raw workspace id to its normalized slot in `[1, offset]`.
pub fn normalize_workspace(id: u32, offset: u32) -> (slot: u32)
    requires
        id >= 1,
        offset >= 1,
    ensures
        slot == spec_normalize(id as int, offset as int),
        1 <= slot <= offset,
{
    ((id - 1) % offset) + 1
}

/// The slot reached from `base` by one cycling step.
pub open spec fn spec_cycle_target(
    base: int,
    offset: int,
    direction: CycleDirection,
    wrap: bool,
) -> int {
    match direction {
        CycleDirection::Next => if wrap {
            (base % offset) + 1
        } else if base >= offset {
            offset
        } else {
            base + 1
        },
        CycleDirection::Prev => if wrap {
            ((base + offset - 2) % offset) + 1
        } else if base <= 1 {
            1
        } else {
            base - 1
        },
    }
}

/// Computes the slot reached from `base` by one step in `direction`.
/// With `wrap` the slots `[1, offset]` cycle; without it the step clamps
/// at the boundary.
pub fn cycle_target(base: u32, offset: u32, direction: CycleDirection, wrap: bool) -> (target: u32)
    requires
        1 <= base <= offset,
    ensures
        target == spec_cycle_target(base as int, offset as int, direction, wrap),
        1 <= target <= offset,
{
    match direction {
        CycleDirection::Next => {
            if wrap {
                (base % offset) + 1
            } else if base >= offset {
                offset
            } else {
                base + 1
            }
        },
        CycleDirection::Prev => {
            if wrap {
                let wide: u64 = (base as u64) + (offset as u64) - 2;
                ((wide % (offset as u64)) + 1) as u32
            } else if base <= 1 {
                1
            } else {
                base - 1
            }
        },
    }
}

/// With `wrap`, one step characterized exactly: `Next` adds one and wraps
/// from `offset` to `1`; `Prev` subtracts one and wraps from `1` to `offset`.
pub proof fn lemma_cycle_wrap_step(base: int, offset: int)
    requires
        1 <= base <= offset,
    ensures
        spec_cycle_target(base, offset, CycleDirection::Next, true) == if base == offset {
            1int
        } else {
            base + 1
        },
        spec_cycle_target(base, offset, CycleDirection::Prev, true) == if base == 1 {
            offset
        } else {
            base - 1
        },
{
    if base == offset {
        vstd::arithmetic::div_mod::lemma_mod_self_0(offset);
    } else {
        vstd::arithmetic::div_mod::lemma_small_mod(base as nat, offset as nat);
    }
    vstd::arithmetic::div_mod::lemma_mod_add_multiples_vanish(base - 2, offset);
    assert(base + offset - 2 == offset + (base - 2));
    if base >= 2 {
        vstd::arithmetic::div_mod::lemma_small_mod((base - 2) as nat, offset as nat);
    } else {
        vstd::arithmetic::div_mod::lemma_mod_add_multiples_vanish(-1, offset);
        if offset == 1 {
            vstd::arithmetic::div_mod::lemma_small_mod(0nat, 1nat);
        } else {
            vstd::arithmetic::div_mod::lemma_small_mod((offset - 1) as nat, offset as nat);
        }
    }
}

/// Normalization lands in `[1, offset]` and is idempotent: normalizing an
/// already-normalized slot leaves it unchanged.
pub proof fn lemma_normalize_idempotent(id: int, offset: int)
    requires
        id >= 1,
        offset >= 1,
    ensures
        1 <= spec_normalize(id, offset) <= offset,
        spec_normalize(spec_normalize(id, offset), offset) == spec_normalize(id, offset),
{
    let slot = spec_normalize(id, offset);
    assert(0 <= (id - 1) % offset < offset) by {
        vstd::arithmetic::div_mod::lemma_mod_bound(id - 1, offset);
    }
    assert((slot - 1) % offset == slot - 1) by {
        vstd::arithmetic::div_mod::lemma_small_mod((slot - 1) as nat, offset as nat);
    }
}

/// Cycling with `wrap` stays in `[1, offset]`, and `Next` followed by `Prev`
/// (or `Prev` followed by `Next`) returns to the original slot; the wrapped
/// step is therefore a bijection on `[1, offset]` in both directions.
pub proof fn lemma_cycle_wrap_inverse(base: int, offset: int)
    requires
        1 <= base <= offset,
    ensures
        1 <= spec_cycle_target(base, offset, CycleDirection::Next, true) <= offset,
        1 <= spec_cycle_target(base, offset, CycleDirection::Prev, true) <= offset,
        spec_cycle_target(
            spec_cycle_target(base, offset, CycleDirection::Next, true),
            offset,
            CycleDirection::Prev,
            true,
        ) == base,
        spec_cycle_target(
            spec_cycle_target(base, offset, CycleDirection::Prev, true),
            offset,
            CycleDirection::Next,
            true,
        ) == base,
{
    let next = spec_cycle_target(base, offset, CycleDirection::Next, true);
    let prev = spec_cycle_target(base, offset, CycleDirection::Prev, true);
    lemma_cycle_wrap_step(base, offset);
    lemma_cycle_wrap_step(next, offset);
    lemma_cycle_wrap_step(prev, offset);
}

} // verus!
