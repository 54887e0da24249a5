//! Which of a Vulkan device's kinds of memory to allocate from.
use vstd::prelude::*;

verus! {

/// The memory is on the device.
pub const DEVICE_LOCAL: u32 = 1;

/// The CPU can map the memory.
pub const HOST_VISIBLE: u32 = 2;

/// What the CPU writes needs no flush.
pub const HOST_COHERENT: u32 = 4;

/// The memory need not exist as long as a tile can hold what is in it.
pub const LAZILY_ALLOCATED: u32 = 16;

/// What a buffer that the CPU fills asks of its memory.
pub const HOST_MEMORY: u32 = HOST_VISIBLE | HOST_COHERENT;

/// What a depth buffer asks of its memory, where the device offers it.
pub const TILE_MEMORY: u32 = DEVICE_LOCAL | LAZILY_ALLOCATED;

/// Kind `i` of memory is among those that `bits` allows, and has all of `flags`.
pub open spec fn suits(types: Seq<u32>, bits: u32, flags: u32, i: int) -> bool {
    &&& 0 <= i < types.len()
    &&& bits & (1u32 << (i as u32)) != 0
    &&& types[i] & flags == flags
}

/// `r` is the first kind of memory that suits, if there is one.
pub open spec fn first_suiting(types: Seq<u32>, bits: u32, flags: u32, r: Option<u32>) -> bool {
    match r {
        Some(i) => suits(types, bits, flags, i as int) && forall|j: int|
            0 <= j < i ==> !suits(types, bits, flags, j),
        None => forall|j: int| !suits(types, bits, flags, j),
    }
}

/// Whether properties of memory have all of the flags asked for, by
/// `ash::vk::MemoryPropertyFlags::contains`.
#[verifier::external_body]
fn properties_contain(properties: u32, flags: u32) -> (r: bool)
    ensures
        r == (properties & flags == flags),
{
    ash::vk::MemoryPropertyFlags::from_raw(properties).contains(
        ash::vk::MemoryPropertyFlags::from_raw(flags),
    )
}

/// The first kind of memory that `bits` allows and that has all of `flags`. `types` are the
/// properties of the device's kinds of memory, of which Vulkan has at most 32.
pub fn memory_type(types: &Vec<u32>, bits: u32, flags: u32) -> (r: Option<u32>)
    requires
        types.len() <= 32,
    ensures
        first_suiting(types@, bits, flags, r),
{
    let mut i: u32 = 0;
    while (i as usize) < types.len()
        invariant
            i <= types.len() <= 32,
            forall|j: int| 0 <= j < i ==> !suits(types@, bits, flags, j),
        decreases types.len() - i,
    {
        if bits & (1u32 << i) != 0 && properties_contain(types[i as usize], flags) {
            return Some(i);
        }
        i += 1;
    }
    None
}

/// The kind of memory for a buffer that the CPU fills.
pub fn host_memory(types: &Vec<u32>, bits: u32) -> (r: Option<u32>)
    requires
        types.len() <= 32,
    ensures
        first_suiting(types@, bits, HOST_MEMORY, r),
{
    memory_type(types, bits, HOST_MEMORY)
}

/// The kind of memory for a depth buffer: on the device, and only as much of it as no tile can
/// hold, where the device offers that.
pub fn depth_memory(types: &Vec<u32>, bits: u32) -> (r: Option<u32>)
    requires
        types.len() <= 32,
    ensures
        if exists|j: int| suits(types@, bits, TILE_MEMORY, j) {
            first_suiting(types@, bits, TILE_MEMORY, r)
        } else {
            first_suiting(types@, bits, DEVICE_LOCAL, r)
        },
{
    match memory_type(types, bits, TILE_MEMORY) {
        Some(i) => {
            assert(suits(types@, bits, TILE_MEMORY, i as int));
            Some(i)
        },
        None => memory_type(types, bits, DEVICE_LOCAL),
    }
}

/// A depth buffer finds memory exactly if the device has some of its own for it: the preference
/// for tile memory never makes an allocation fail.
pub proof fn law_depth_memory_is_found(types: Seq<u32>, bits: u32, r: Option<u32>)
    requires
        types.len() <= 32,
        if exists|j: int| suits(types, bits, TILE_MEMORY, j) {
            first_suiting(types, bits, TILE_MEMORY, r)
        } else {
            first_suiting(types, bits, DEVICE_LOCAL, r)
        },
    ensures
        r is Some <==> exists|j: int| suits(types, bits, DEVICE_LOCAL, j),
        r matches Some(i) ==> suits(types, bits, DEVICE_LOCAL, i as int),
{
    assert forall|j: int| suits(types, bits, TILE_MEMORY, j) implies suits(types, bits, DEVICE_LOCAL, j) by {
        let t = types[j];
        assert(t & TILE_MEMORY == TILE_MEMORY ==> t & DEVICE_LOCAL == DEVICE_LOCAL) by (bit_vector);
    }
    if exists|j: int| suits(types, bits, TILE_MEMORY, j) {
        let j = choose|j: int| suits(types, bits, TILE_MEMORY, j);
        assert(suits(types, bits, TILE_MEMORY, j));
        assert(suits(types, bits, DEVICE_LOCAL, j));
    }
}

/// Bit `i` of a word, as a number.
pub open spec fn bit(word: u32, i: u32) -> u32 {
    (word >> i) & 1
}

/// The kind of memory that is chosen is one that the device allows for the purpose and that has
/// every property asked for; it is the first of these, and there is none only if the device has no
/// such kind.
pub proof fn law_memory_is_first_that_suits(
    types: Vec<u32>,
    bits: u32,
    flags: u32,
    r: Option<u32>,
    j: u32,
)
    requires
        types.len() <= 32,
        call_ensures(memory_type, (&types, bits, flags), r),
        j < types.len(),
    ensures
        r matches Some(i) ==> {
            &&& i < types.len()
            &&& bit(bits, i) == 1
            &&& types@[i as int] | flags == types@[i as int]
        },
        bit(bits, j) == 1 && types@[j as int] | flags == types@[j as int] ==> (r matches Some(i)
            && i <= j),
{
    let t = types@[j as int];
    assert(t & flags == flags <==> t | flags == t) by (bit_vector);
    assert(j < 32 ==> (bits & (1u32 << j) != 0 <==> (bits >> j) & 1 == 1)) by (bit_vector);
    if bit(bits, j) == 1 && t | flags == t {
        assert(suits(types@, bits, flags, j as int));
    }
    if let Some(i) = r {
        let u = types@[i as int];
        assert(suits(types@, bits, flags, i as int));
        assert(u & flags == flags <==> u | flags == u) by (bit_vector);
        assert(i < 32 ==> (bits & (1u32 << i) != 0 <==> (bits >> i) & 1 == 1)) by (bit_vector);
    }
}

/// The CPU can map the memory of a buffer that it fills, and its writes need no flush; the memory
/// is the first allowed kind of which that holds.
pub proof fn law_host_memory_is_mapped(types: Vec<u32>, bits: u32, r: Option<u32>, j: u32)
    requires
        types.len() <= 32,
        call_ensures(host_memory, (&types, bits), r),
        j < types.len(),
    ensures
        r matches Some(i) ==> {
            &&& i < types.len()
            &&& bit(bits, i) == 1
            &&& bit(types@[i as int], 1) == 1
            &&& bit(types@[i as int], 2) == 1
        },
        bit(bits, j) == 1 && bit(types@[j as int], 1) == 1 && bit(types@[j as int], 2) == 1 ==> (
        r matches Some(i) && i <= j),
{
    let t = types@[j as int];
    assert(t & HOST_MEMORY == HOST_MEMORY <==> (t >> 1) & 1 == 1 && (t >> 2) & 1 == 1) by (bit_vector);
    assert(j < 32 ==> (bits & (1u32 << j) != 0 <==> (bits >> j) & 1 == 1)) by (bit_vector);
    if bit(bits, j) == 1 && bit(t, 1) == 1 && bit(t, 2) == 1 {
        assert(suits(types@, bits, HOST_MEMORY, j as int));
    }
    if let Some(i) = r {
        let u = types@[i as int];
        assert(suits(types@, bits, HOST_MEMORY, i as int));
        assert(u & HOST_MEMORY == HOST_MEMORY <==> (u >> 1) & 1 == 1 && (u >> 2) & 1 == 1)
            by (bit_vector);
        assert(i < 32 ==> (bits & (1u32 << i) != 0 <==> (bits >> i) & 1 == 1)) by (bit_vector);
    }
}

/// The memory of a depth buffer is on the device, and is found if any allowed kind is; it is one
/// that need not exist as long as a tile holds it, wherever an allowed kind on the device is.
pub proof fn law_depth_memory_prefers_tiles(types: Vec<u32>, bits: u32, r: Option<u32>, j: u32)
    requires
        types.len() <= 32,
        call_ensures(depth_memory, (&types, bits), r),
        j < types.len(),
    ensures
        r matches Some(i) ==> {
            &&& i < types.len()
            &&& bit(bits, i) == 1
            &&& bit(types@[i as int], 0) == 1
        },
        bit(bits, j) == 1 && bit(types@[j as int], 0) == 1 ==> {
            &&& r matches Some(i)
            &&& bit(types@[j as int], 4) == 1 ==> bit(types@[i as int], 4) == 1
            &&& bit(types@[j as int], 4) == bit(types@[i as int], 4) ==> i <= j
        },
{
    let t = types@[j as int];
    assert(t & TILE_MEMORY == TILE_MEMORY <==> (t >> 0) & 1 == 1 && (t >> 4) & 1 == 1) by (bit_vector);
    assert(t & DEVICE_LOCAL == DEVICE_LOCAL <==> (t >> 0) & 1 == 1) by (bit_vector);
    assert((t >> 4) & 1 == 0 || (t >> 4) & 1 == 1) by (bit_vector);
    assert(j < 32 ==> (bits & (1u32 << j) != 0 <==> (bits >> j) & 1 == 1)) by (bit_vector);
    law_depth_memory_is_found(types@, bits, r);
    if bit(bits, j) == 1 && bit(t, 0) == 1 {
        assert(suits(types@, bits, DEVICE_LOCAL, j as int));
        if bit(t, 4) == 1 {
            assert(suits(types@, bits, TILE_MEMORY, j as int));
        }
    }
    if let Some(i) = r {
        let u = types@[i as int];
        assert(suits(types@, bits, DEVICE_LOCAL, i as int));
        assert(u & TILE_MEMORY == TILE_MEMORY <==> (u >> 0) & 1 == 1 && (u >> 4) & 1 == 1)
            by (bit_vector);
        assert(u & DEVICE_LOCAL == DEVICE_LOCAL <==> (u >> 0) & 1 == 1) by (bit_vector);
        assert((u >> 4) & 1 == 0 || (u >> 4) & 1 == 1) by (bit_vector);
        assert(i < 32 ==> (bits & (1u32 << i) != 0 <==> (bits >> i) & 1 == 1)) by (bit_vector);
    }
}

} // verus!
