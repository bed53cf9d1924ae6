use vstd::prelude::*;

verus! {

/// `VkBufferUsageFlags` bits.
pub const BUFFER_USAGE_TRANSFER_SRC: u32 = 1;
pub const BUFFER_USAGE_TRANSFER_DST: u32 = 2;
pub const BUFFER_USAGE_INDEX_BUFFER: u32 = 64;
pub const BUFFER_USAGE_VERTEX_BUFFER: u32 = 128;

/// `VkMemoryPropertyFlags` bits.
pub const MEMORY_DEVICE_LOCAL: u32 = 1;
pub const MEMORY_HOST_VISIBLE: u32 = 2;
pub const MEMORY_HOST_COHERENT: u32 = 4;

/// The most memory types a device reports.
pub const MAX_MEMORY_TYPES: usize = 32;

/// What a storage buffer holds.
#[derive(Clone, Copy, Debug, PartialEq, Eq, Structural)]
pub enum DataUsage {
    VERTEX,
    INDEX,
}

impl DataUsage {
    /// The usage flags of a device-local buffer that is filled by a copy.
    pub fn buffer_usage(&self) -> (r: u32)
        ensures
            *self == DataUsage::VERTEX ==> r == BUFFER_USAGE_TRANSFER_DST | BUFFER_USAGE_VERTEX_BUFFER,
            *self == DataUsage::INDEX ==> r == BUFFER_USAGE_TRANSFER_DST | BUFFER_USAGE_INDEX_BUFFER,
    {
        match self {
            DataUsage::VERTEX => BUFFER_USAGE_TRANSFER_DST | BUFFER_USAGE_VERTEX_BUFFER,
            DataUsage::INDEX => BUFFER_USAGE_TRANSFER_DST | BUFFER_USAGE_INDEX_BUFFER,
        }
    }
}

/// Memory type `i` is allowed by the buffer's type bits and has every required property.
pub open spec fn memory_type_fits(type_bits: u32, property_flags: Seq<u32>, required: u32, i: int) -> bool {
    &&& 0 <= i < property_flags.len()
    &&& i < 32
    &&& type_bits & (1u32 << (i as u32)) != 0
    &&& property_flags[i] & required == required
}

/// Finds the first memory type that the buffer's type bits allow and that
/// has every required property.
pub fn find_memory_type(type_bits: u32, property_flags: &Vec<u32>, required: u32) -> (r: Option<u32>)
    requires
        property_flags@.len() <= MAX_MEMORY_TYPES,
    ensures
        r is None <==> forall|i: int|
            0 <= i < property_flags@.len() ==> !memory_type_fits(type_bits, property_flags@, required, i),
        r matches Some(k) ==> memory_type_fits(type_bits, property_flags@, required, k as int)
            && forall|i: int| 0 <= i < k ==> !memory_type_fits(type_bits, property_flags@, required, i),
{
    let mut i: u32 = 0;
    while (i as usize) < property_flags.len()
        invariant
            property_flags@.len() <= MAX_MEMORY_TYPES,
            i <= property_flags@.len(),
            forall|j: int| 0 <= j < i ==> !memory_type_fits(type_bits, property_flags@, required, j),
        decreases property_flags@.len() - i,
    {
        if type_bits & (1u32 << i) != 0 && property_flags[i as usize] & required == required {
            assert(memory_type_fits(type_bits, property_flags@, required, i as int));
            return Some(i);
        }
        i = i + 1;
    }
    None
}

} // verus!
