//! Capabilities that nodes require, and the choice of a queue family for a node.
use vstd::prelude::*;

verus! {

/// Class of GPU work that a node requires of the queue it runs on.
#[derive(Clone, Copy, Debug, PartialEq, Eq, Structural)]
pub enum Capability {
    /// Copies between resources.
    Transfer,
    /// Execution of secondary work: anything but a pure transfer queue.
    Execute,
    /// Compute dispatches.
    Compute,
    /// Draw calls.
    Graphics,
    /// Every kind of work.
    General,
}

/// Kind of a queue family, as the device reports it.
#[derive(Clone, Copy, Debug, PartialEq, Eq, Structural)]
pub enum QueueType {
    General,
    Graphics,
    Compute,
    Transfer,
}

/// Whether queues of type `q` can run work that requires capability `c`.
pub open spec fn supports_spec(q: QueueType, c: Capability) -> bool {
    match c {
        Capability::Transfer => true,
        Capability::Execute => q != QueueType::Transfer,
        Capability::Compute => q == QueueType::General || q == QueueType::Compute,
        Capability::Graphics => q == QueueType::General || q == QueueType::Graphics,
        Capability::General => q == QueueType::General,
    }
}

/// Whether queues of type `q` can run work that requires capability `c`.
pub fn supports(q: QueueType, c: Capability) -> (r: bool)
    ensures
        r == supports_spec(q, c),
{
    match c {
        Capability::Transfer => true,
        Capability::Execute => !matches!(q, QueueType::Transfer),
        Capability::Compute => matches!(q, QueueType::General | QueueType::Compute),
        Capability::Graphics => matches!(q, QueueType::General | QueueType::Graphics),
        Capability::General => matches!(q, QueueType::General),
    }
}

/// A queue family of the device: its identifier and the kind of its queues.
#[derive(Clone, Copy)]
pub struct Family {
    pub id: gfx_hal::queue::QueueFamilyId,
    pub capability: QueueType,
}

/// Index of the first family in `families` whose queues support `c`, if any.
pub open spec fn first_supporting(families: Seq<Family>, c: Capability) -> Option<int>
    decreases families.len(),
{
    if families.len() == 0 {
        None
    } else if supports_spec(families.last().capability, c)
        && first_supporting(families.drop_last(), c) is None {
        Some(families.len() - 1)
    } else {
        first_supporting(families.drop_last(), c)
    }
}

/// The family chosen for a node requiring `c`: the first one that supports it.
pub open spec fn family_spec(families: Seq<Family>, c: Capability) -> Option<gfx_hal::queue::QueueFamilyId> {
    match first_supporting(families, c) {
        Some(i) => Some(families[i].id),
        None => None,
    }
}

/// `first_supporting` finds the earliest supporting family and nothing else.
pub proof fn lemma_first_supporting(families: Seq<Family>, c: Capability)
    ensures
        match first_supporting(families, c) {
            Some(i) => 0 <= i < families.len() && supports_spec(families[i].capability, c)
                && forall|j: int| 0 <= j < i ==> !supports_spec(#[trigger] families[j].capability, c),
            None => forall|j: int| 0 <= j < families.len() ==> !supports_spec(#[trigger] families[j].capability, c),
        },
    decreases families.len(),
{
    if families.len() > 0 {
        lemma_first_supporting(families.drop_last(), c);
        assert forall|j: int| 0 <= j < families.len() - 1 implies families[j] == families.drop_last()[j] by {}
    }
}

/// Queue family for a node that requires `c`: the first family, in the order
/// given, whose queues support `c`; `None` when no family does.
pub fn select_family(families: &[Family], c: Capability) -> (r: Option<gfx_hal::queue::QueueFamilyId>)
    ensures
        r == family_spec(families@, c),
{
    let mut i: usize = 0;
    while i < families.len()
        invariant
            i <= families@.len(),
            forall|j: int| 0 <= j < i ==> !supports_spec(#[trigger] families@[j].capability, c),
        decreases families@.len() - i,
    {
        if supports(families[i].capability, c) {
            proof {
                lemma_first_is(families@, c, i as int);
            }
            return Some(families[i].id);
        }
        i = i + 1;
    }
    proof {
        lemma_first_supporting(families@, c);
        if first_supporting(families@, c) is Some {
            let k = first_supporting(families@, c)->0;
            assert(!supports_spec(families@[k].capability, c));
        }
    }
    None
}

/// A supporting family with no supporting family before it is the first one.
pub proof fn lemma_first_is(families: Seq<Family>, c: Capability, i: int)
    requires
        0 <= i < families.len(),
        supports_spec(families[i].capability, c),
        forall|j: int| 0 <= j < i ==> !supports_spec(#[trigger] families[j].capability, c),
    ensures
        first_supporting(families, c) == Some(i),
{
    lemma_first_supporting(families, c);
    match first_supporting(families, c) {
        Some(k) => {
            if k < i {
                assert(!supports_spec(families[k].capability, c));
            } else if k > i {
                assert(!supports_spec(families[i].capability, c));
            }
        },
        None => {
            assert(!supports_spec(families[i].capability, c));
        },
    }
}

} // verus!
