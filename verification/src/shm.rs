//! Permissions on a shared-memory region.

use vstd::prelude::*;

verus! {

/// One right that the owner of a shared-memory region may grant to
/// another task.
///
/// Each right is one bit of a 32-bit mask. A set of rights is the bitwise
/// OR of their bits, and a right is tested with a bitwise AND. `Read` and
/// `Write` are of use only together with `MapRegion`; whoever sets the
/// rights of a region enforces that, not this encoding.
#[derive(Clone, Copy, Debug, PartialEq, Eq, Structural)]
pub enum SHMPermission {
    /// The task may map the region, without reading or writing it.
    MapRegion,
    /// The task may read the mapped region.
    Read,
    /// The task may write the mapped region.
    Write,
    /// The task may hand the region on to another task that was allowed
    /// beforehand.
    Transfer,
}

impl SHMPermission {
    /// The position of this right's bit in a mask, counted from the least
    /// significant bit.
    pub open spec fn bit_index(self) -> u32 {
        match self {
            SHMPermission::MapRegion => 0,
            SHMPermission::Read => 1,
            SHMPermission::Write => 2,
            SHMPermission::Transfer => 3,
        }
    }

    /// The mask that holds this right and no other.
    pub open spec fn mask(self) -> u32 {
        match self {
            SHMPermission::MapRegion => 0x1,
            SHMPermission::Read => 0x2,
            SHMPermission::Write => 0x4,
            SHMPermission::Transfer => 0x8,
        }
    }

    /// Whether `mask` holds this right.
    pub open spec fn granted_by(self, mask: u32) -> bool {
        mask & self.mask() != 0
    }
}

impl From<SHMPermission> for u32 {
    /// Encodes a right as the mask that holds it alone.
    fn from(shm_perm: SHMPermission) -> (mask: u32)
        ensures
            mask == shm_perm.mask(),
    {
        match shm_perm {
            SHMPermission::MapRegion => 0x1,
            SHMPermission::Read => 0x2,
            SHMPermission::Write => 0x4,
            SHMPermission::Transfer => 0x8,
        }
    }
}

impl vstd::std_specs::convert::FromSpecImpl<SHMPermission> for u32 {
    open spec fn obeys_from_spec() -> bool {
        true
    }

    open spec fn from_spec(shm_perm: SHMPermission) -> u32 {
        shm_perm.mask()
    }
}

/// The mask of a right has exactly one bit set, the one at the right's
/// position, and that position is among the lowest four.
pub proof fn lemma_mask_single_bit(p: SHMPermission)
    ensures
        p.bit_index() < 4,
        p.mask() == 1u32 << p.bit_index(),
{
    assert(1u32 << 0u32 == 0x1u32) by (bit_vector);
    assert(1u32 << 1u32 == 0x2u32) by (bit_vector);
    assert(1u32 << 2u32 == 0x4u32) by (bit_vector);
    assert(1u32 << 3u32 == 0x8u32) by (bit_vector);
}

/// Distinct rights have distinct masks.
pub proof fn lemma_mask_injective(p: SHMPermission, q: SHMPermission)
    requires
        p.mask() == q.mask(),
    ensures
        p == q,
{
}

/// Adding a right to a mask with OR grants that right and changes no other
/// test: afterwards `q` is granted exactly if it is the right that was
/// added or was granted before. The empty mask grants nothing.
pub proof fn lemma_or_preserves_tests(mask: u32, p: SHMPermission, q: SHMPermission)
    ensures
        q.granted_by(mask | p.mask()) <==> q == p || q.granted_by(mask),
        !q.granted_by(0),
{
    let a = p.mask();
    let b = q.mask();
    assert(((mask | a) & b != 0) <==> (a == b || (mask & b != 0))) by (bit_vector)
        requires
            a == 1 || a == 2 || a == 4 || a == 8,
            b == 1 || b == 2 || b == 4 || b == 8,
    ;
    assert(0u32 & b == 0) by (bit_vector);
}

} // verus!
