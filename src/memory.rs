use vstd::prelude::*;

verus! {

/// The most memory types a physical device reports.
pub const MAX_MEMORY_TYPES: usize = 32;

/// Raw memory property bits.
pub const MEMORY_DEVICE_LOCAL: u32 = 1;

pub const MEMORY_HOST_VISIBLE: u32 = 2;

pub const MEMORY_HOST_COHERENT: u32 = 4;

/// No memory type of the device fits the request.
#[derive(Clone, Copy, Debug, PartialEq, Eq, Structural)]
pub struct NoSuitableMemoryTypeError;

/// Bit `i` of `type_bits` is set.
pub open spec fn type_allowed(type_bits: u32, i: u32) -> bool {
    (type_bits >> i) & 1u32 == 1u32
}

/// `flags` holds every bit of `required`.
pub open spec fn has_properties(flags: u32, required: u32) -> bool {
    flags & required == required
}

/// Memory type `i` is allowed by the resource and has the requested properties.
pub open spec fn memory_type_fits(type_bits: u32, type_flags: Seq<u32>, required: u32, i: int) -> bool {
    &&& 0 <= i < type_flags.len()
    &&& type_allowed(type_bits, i as u32)
    &&& has_properties(type_flags[i], required)
}

/// Selects the lowest-indexed memory type whose bit is set in `type_bits` (the
/// resource's requirements) and whose property flags, `type_flags[i]` for type
/// `i`, hold every bit of `properties`.
pub fn get_memory_type_index(type_bits: u32, type_flags: &Vec<u32>, properties: u32) -> (r: Result<
    u32,
    NoSuitableMemoryTypeError,
>)
    requires
        type_flags@.len() <= MAX_MEMORY_TYPES,
    ensures
        r matches Ok(i) ==> memory_type_fits(type_bits, type_flags@, properties, i as int)
            && forall|j: int| 0 <= j < i ==> !memory_type_fits(type_bits, type_flags@, properties, j),
        r is Err <==> forall|j: int|
            0 <= j < type_flags@.len() ==> !memory_type_fits(type_bits, type_flags@, properties, j),
{
    let mut i: usize = 0;
    while i < type_flags.len()
        invariant
            i <= type_flags@.len() <= MAX_MEMORY_TYPES,
            forall|j: int| 0 <= j < i ==> !memory_type_fits(type_bits, type_flags@, properties, j),
        decreases type_flags@.len() - i,
    {
        let shift = i as u32;
        let allowed = (type_bits >> shift) & 1u32 == 1u32;
        if allowed && type_flags[i] & properties == properties {
            assert(memory_type_fits(type_bits, type_flags@, properties, i as int));
            return Ok(shift);
        }
        i = i + 1;
    }
    Err(NoSuitableMemoryTypeError)
}

/// Where the resource allows exactly one memory type, and that type has the
/// requested properties, it is the only one that fits: selection returns its
/// index.
pub proof fn lemma_single_allowed_type_selected(type_bits: u32, type_flags: Seq<u32>, properties: u32, k: u32)
    requires
        k < type_flags.len() <= MAX_MEMORY_TYPES,
        type_bits == 1u32 << k,
        has_properties(type_flags[k as int], properties),
    ensures
        memory_type_fits(type_bits, type_flags, properties, k as int),
        forall|j: int| 0 <= j < type_flags.len() && j != k
            ==> !memory_type_fits(type_bits, type_flags, properties, j),
{
    assert(((1u32 << k) >> k) & 1u32 == 1u32) by (bit_vector)
        requires k < 32u32;
    assert forall|j: int| 0 <= j < type_flags.len() && j != k
        implies !memory_type_fits(type_bits, type_flags, properties, j) by {
        let jj = j as u32;
        assert(((1u32 << k) >> jj) & 1u32 != 1u32) by (bit_vector)
            requires k < 32u32, jj < 32u32, jj != k;
    }
}

} // verus!
