//! Handles on the resources that the kernel manages.

use vstd::prelude::*;
use crate::syscall::DispatchError;

verus! {

/// The kinds of resource a handle can designate.
///
/// Each kind has one bit of the four-bit type field of a handle. A handle
/// designates one kind: the bits are tags, not a set.
#[derive(Clone, Copy, Debug, PartialEq, Eq, Structural)]
pub enum ResourceType {
    /// A process.
    PID,
    /// A device.
    Device,
    /// A shared-memory region.
    SHM,
    /// A DMA stream.
    DMA,
}

impl ResourceType {
    /// The value of the type field that stands for this kind.
    pub open spec fn tag(self) -> u32 {
        match self {
            ResourceType::PID => 1,
            ResourceType::Device => 2,
            ResourceType::SHM => 4,
            ResourceType::DMA => 8,
        }
    }
}

impl From<ResourceType> for u32 {
    /// Encodes a kind as the value of a handle's type field.
    fn from(resource_type: ResourceType) -> (v: u32)
        ensures
            v == resource_type.tag(),
    {
        match resource_type {
            ResourceType::PID => 1,
            ResourceType::Device => 2,
            ResourceType::SHM => 4,
            ResourceType::DMA => 8,
        }
    }
}

impl vstd::std_specs::convert::FromSpecImpl<ResourceType> for u32 {
    open spec fn obeys_from_spec() -> bool {
        true
    }

    open spec fn from_spec(resource_type: ResourceType) -> u32 {
        resource_type.tag()
    }
}

/// The three fields of a handle, as numbers.
pub struct HandleFields {
    /// What kind of resource the handle designates.
    pub resource_type: nat,
    /// The namespace of the task that the resource belongs to.
    pub task_ns: nat,
    /// The resource's identifier within that namespace.
    pub resource_id: nat,
}

impl HandleFields {
    /// Whether each field fits its width: 4 bits for the type, 12 bits each
    /// for the namespace and the identifier.
    pub open spec fn fits(self) -> bool {
        &&& self.resource_type < 16
        &&& self.task_ns < 4096
        &&& self.resource_id < 4096
    }

    /// The flat form of the fields: the type in bits 0 to 3, the namespace
    /// in bits 4 to 15, the identifier in bits 16 to 27.
    pub open spec fn packed(self) -> nat {
        self.resource_type + 16 * self.task_ns + 65536 * self.resource_id
    }

    /// The fields that a flat value holds. Bits 28 and above are reserved
    /// and belong to no field.
    pub open spec fn of_packed(raw: nat) -> HandleFields {
        HandleFields {
            resource_type: raw % 16,
            task_ns: (raw / 16) % 4096,
            resource_id: (raw / 65536) % 4096,
        }
    }
}

/// The identifier by which a task refers to a resource of the kernel.
///
/// A handle is one value with two forms: three fields, or one 32-bit
/// integer that holds them side by side. A handle's fields always fit
/// their widths.
#[derive(Clone, Copy, Debug, PartialEq, Eq, Structural)]
pub struct ResourceHandle {
    resource_type: u32,
    task_ns: u32,
    resource_id: u32,
}

impl View for ResourceHandle {
    type V = HandleFields;

    closed spec fn view(&self) -> HandleFields {
        HandleFields {
            resource_type: self.resource_type as nat,
            task_ns: self.task_ns as nat,
            resource_id: self.resource_id as nat,
        }
    }
}

impl ResourceHandle {
    #[verifier::type_invariant]
    spec fn well_formed(self) -> bool {
        self@.fits()
    }

    /// Makes a handle from its fields. A field that does not fit its width
    /// is refused, never cut down.
    pub fn new(resource_type: u32, task_ns: u32, resource_id: u32) -> (r: Result<
        ResourceHandle,
        DispatchError,
    >)
        ensures
            r is Ok <==> resource_type < 16 && task_ns < 4096 && resource_id < 4096,
            r matches Ok(h) ==> h@ == (HandleFields {
                resource_type: resource_type as nat,
                task_ns: task_ns as nat,
                resource_id: resource_id as nat,
            }),
            r matches Err(e) ==> e == DispatchError::IllegalValue,
    {
        if resource_type < 16 && task_ns < 4096 && resource_id < 4096 {
            Ok(ResourceHandle { resource_type, task_ns, resource_id })
        } else {
            Err(DispatchError::IllegalValue)
        }
    }

    /// The flat form of the handle. Its reserved bits are zero, and it
    /// holds the handle's fields and no others.
    pub fn pack(&self) -> (raw: u32)
        ensures
            raw == self@.packed(),
            raw < 0x1000_0000,
            HandleFields::of_packed(raw as nat) == self@,
            self@.fits(),
    {
        proof {
            use_type_invariant(self);
            lemma_unpack_pack(self@);
        }
        let ty: u32 = self.resource_type;
        let ns: u32 = self.task_ns;
        let id: u32 = self.resource_id;
        assert(ty | (ns << 4) | (id << 16) == ty + 16 * ns + 65536 * id) by (bit_vector)
            requires
                ty < 16,
                ns < 4096,
                id < 4096,
        ;
        ty | (ns << 4) | (id << 16)
    }

    /// The handle that a flat value holds. Every value holds one; its
    /// reserved bits are dropped, so the handle packs to `raw` with those
    /// bits cleared.
    pub fn unpack(raw: u32) -> (h: ResourceHandle)
        ensures
            h@ == HandleFields::of_packed(raw as nat),
            h@.fits(),
            h@.packed() == raw % 0x1000_0000,
    {
        proof {
            lemma_pack_unpack(raw);
        }
        assert(raw & 0xf == raw % 16) by (bit_vector);
        assert((raw >> 4) & 0xfff == (raw / 16) % 4096) by (bit_vector);
        assert((raw >> 16) & 0xfff == (raw / 65536) % 4096) by (bit_vector);
        ResourceHandle {
            resource_type: raw & 0xf,
            task_ns: (raw >> 4) & 0xfff,
            resource_id: (raw >> 16) & 0xfff,
        }
    }

    /// The type field.
    pub fn resource_type(&self) -> (v: u32)
        ensures
            v == self@.resource_type,
            v < 16,
    {
        proof {
            use_type_invariant(self);
        }
        self.resource_type
    }

    /// The namespace field.
    pub fn task_ns(&self) -> (v: u32)
        ensures
            v == self@.task_ns,
            v < 4096,
    {
        proof {
            use_type_invariant(self);
        }
        self.task_ns
    }

    /// The identifier field.
    pub fn resource_id(&self) -> (v: u32)
        ensures
            v == self@.resource_id,
            v < 4096,
    {
        proof {
            use_type_invariant(self);
        }
        self.resource_id
    }
}

/// The value of every kind is a single bit that fits the type field of a
/// handle, and two kinds with one value are one kind.
pub proof fn lemma_tag_single_bit(a: ResourceType, b: ResourceType)
    ensures
        a.tag() == 1 || a.tag() == 2 || a.tag() == 4 || a.tag() == 8,
        a.tag() < 16,
        a.tag() == b.tag() ==> a == b,
{
}

/// Unpacking undoes packing: fields that fit their widths come back
/// unchanged from their flat form, and that form fits in 28 bits.
pub proof fn lemma_unpack_pack(fields: HandleFields)
    requires
        fields.fits(),
    ensures
        HandleFields::of_packed(fields.packed()) == fields,
        fields.packed() < 0x1000_0000,
{
}

/// Packing undoes unpacking up to the reserved bits: the fields of any
/// flat value fit their widths, and pack to that value with bits 28 and
/// above cleared. A value below 2^28 comes back unchanged.
pub proof fn lemma_pack_unpack(raw: u32)
    ensures
        HandleFields::of_packed(raw as nat).fits(),
        HandleFields::of_packed(raw as nat).packed() == raw % 0x1000_0000,
        raw < 0x1000_0000 ==> HandleFields::of_packed(raw as nat).packed() == raw,
{
}

/// Two handles with the same fields are the same handle.
pub proof fn lemma_handle_by_fields(a: ResourceHandle, b: ResourceHandle)
    requires
        a@ == b@,
    ensures
        a == b,
{
}

} // verus!
