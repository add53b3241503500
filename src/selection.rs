//! Choosing the physical device and the queue family.
use vstd::prelude::*;
use crate::vkconst::{supports_graphics, queue_flags_have_graphics};

verus! {

/// The index of the first family at or after `i` whose flags include
/// graphics support.
pub open spec fn first_graphics_from(families: Seq<u32>, i: nat) -> Option<nat>
    decreases families.len() - i,
{
    if i >= families.len() {
        None
    } else if supports_graphics(families[i as int]) {
        Some(i)
    } else {
        first_graphics_from(families, i + 1)
    }
}

/// The index of the first graphics-capable family, in enumeration order.
pub open spec fn first_graphics(families: Seq<u32>) -> Option<nat> {
    first_graphics_from(families, 0)
}

/// Picks the first physical device that enumeration reported, if any.
pub fn select_physical_device(devices: &Vec<u64>) -> (r: Option<u64>)
    ensures
        devices@.len() == 0 ==> r is None,
        devices@.len() > 0 ==> r == Some(devices@[0]),
{
    if devices.len() == 0 {
        None
    } else {
        Some(devices[0])
    }
}

/// Picks the first queue family, in enumeration order, whose raw flags
/// include graphics support.
pub fn select_queue_family(families: &Vec<u32>) -> (r: Option<usize>)
    ensures
        r matches Some(i) ==> first_graphics(families@) == Some(i as nat),
        r is None ==> first_graphics(families@) is None,
        match r {
            Some(i) => {
                &&& i < families@.len()
                &&& supports_graphics(families@[i as int])
                &&& forall|j: int| 0 <= j < i ==> !supports_graphics(#[trigger] families@[j])
            },
            None => forall|j: int| 0 <= j < families@.len() ==> !supports_graphics(#[trigger] families@[j]),
        },
{
    let mut k: usize = 0;
    while k < families.len()
        invariant
            k <= families@.len(),
            forall|j: int| 0 <= j < k ==> !supports_graphics(#[trigger] families@[j]),
            first_graphics(families@) == first_graphics_from(families@, k as nat),
        decreases families@.len() - k,
    {
        if queue_flags_have_graphics(families[k]) {
            return Some(k);
        }
        k = k + 1;
    }
    None
}

/// Some family at or after `i` supports graphics exactly when the search
/// from `i` finds one, and what it finds is graphics-capable and no later
/// than any other such family.
pub proof fn lemma_first_graphics_from(families: Seq<u32>, i: nat)
    ensures
        first_graphics_from(families, i) is Some <==> exists|j: int|
            i <= j < families.len() && supports_graphics(#[trigger] families[j]),
        first_graphics_from(families, i) matches Some(k) ==> {
            &&& i <= k < families.len()
            &&& supports_graphics(families[k as int])
            &&& forall|j: int| i <= j < k ==> !supports_graphics(#[trigger] families[j])
        },
    decreases families.len() - i,
{
    if i < families.len() && !supports_graphics(families[i as int]) {
        lemma_first_graphics_from(families, i + 1);
        if exists|j: int| i <= j < families.len() && supports_graphics(#[trigger] families[j]) {
            let j = choose|j: int| i <= j < families.len() && supports_graphics(#[trigger] families[j]);
            assert(i + 1 <= j);
        }
    }
}

} // verus!
