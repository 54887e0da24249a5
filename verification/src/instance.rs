//! Objects as the GPU draws them.
use crate::scalar::Scalar;
use vstd::prelude::*;

verus! {

/// The flag of an instance that spins.
pub const SPIN: u32 = 1;

/// The flag of an instance that is selected.
pub const SELECTED: u32 = 2;

/// How many bytes an instance takes.
pub const INSTANCE_SIZE: usize = 40;

/// Three numbers: a place, a size, or red, green and blue.
#[derive(Clone, Copy, Debug, PartialEq, Eq, Structural)]
pub struct Triple {
    pub x: Scalar,
    pub y: Scalar,
    pub z: Scalar,
}

/// What the outside derives of an object: the height of its middle, which is half its own height
/// above the ground, and its colour in red, green and blue.
#[derive(Clone, Copy, Debug, PartialEq, Eq, Structural)]
pub struct Derived {
    pub center_y: Scalar,
    pub color: Triple,
}

/// One drawing of the cube.
#[derive(Clone, Copy, Debug, PartialEq, Eq, Structural)]
pub struct Instance {
    pub position: Triple,
    pub scale: Triple,
    pub color: Triple,
    /// Bit 0: spins. Bit 1: is selected.
    pub flags: u32,
}

/// The flags of an instance.
pub open spec fn flag_word(spin: bool, selected: bool) -> u32 {
    (if spin {
        SPIN
    } else {
        0
    }) | (if selected {
        SELECTED
    } else {
        0
    })
}

/// The flags tell exactly whether an instance spins and whether it is selected.
pub proof fn law_flags_tell(spin: bool, selected: bool)
    ensures
        flag_word(spin, selected) & SPIN != 0 <==> spin,
        flag_word(spin, selected) & SELECTED != 0 <==> selected,
{
    assert((SPIN | SELECTED) & SPIN != 0 && (SPIN | SELECTED) & SELECTED != 0) by (bit_vector);
    assert((SPIN | 0) & SPIN != 0 && (SPIN | 0) & SELECTED == 0) by (bit_vector);
    assert((0 | SELECTED) & SPIN == 0 && (0 | SELECTED) & SELECTED != 0) by (bit_vector);
    assert((0u32 | 0u32) & SPIN == 0 && (0u32 | 0u32) & SELECTED == 0) by (bit_vector);
}

/// The ground, a flat slab just below the objects: 14 wide and 0.04 high, at -0.52.
pub open spec fn ground_instance() -> Instance {
    Instance {
        position: Triple {
            x: Scalar { bits: 0 },
            y: Scalar { bits: 0xbf05_1eb8 },
            z: Scalar { bits: 0 },
        },
        scale: Triple {
            x: Scalar { bits: 0x4160_0000 },
            y: Scalar { bits: 0x3d23_d70a },
            z: Scalar { bits: 0x4160_0000 },
        },
        color: Triple {
            x: Scalar { bits: 0x3f6e_147b },
            y: Scalar { bits: 0x3f70_a3d7 },
            z: Scalar { bits: 0x3f75_c28f },
        },
        flags: 0,
    }
}

/// The ground.
pub fn ground() -> (r: Instance)
    ensures
        r == ground_instance(),
{
    Instance {
        position: Triple {
            x: Scalar { bits: 0 },
            y: Scalar { bits: 0xbf05_1eb8 },
            z: Scalar { bits: 0 },
        },
        scale: Triple {
            x: Scalar { bits: 0x4160_0000 },
            y: Scalar { bits: 0x3d23_d70a },
            z: Scalar { bits: 0x4160_0000 },
        },
        color: Triple {
            x: Scalar { bits: 0x3f6e_147b },
            y: Scalar { bits: 0x3f70_a3d7 },
            z: Scalar { bits: 0x3f75_c28f },
        },
        flags: 0,
    }
}

/// Word `k` of an instance: position, scale, colour, flags.
pub open spec fn instance_word(instance: Instance, k: int) -> u32 {
    if k == 0 {
        instance.position.x.bits
    } else if k == 1 {
        instance.position.y.bits
    } else if k == 2 {
        instance.position.z.bits
    } else if k == 3 {
        instance.scale.x.bits
    } else if k == 4 {
        instance.scale.y.bits
    } else if k == 5 {
        instance.scale.z.bits
    } else if k == 6 {
        instance.color.x.bits
    } else if k == 7 {
        instance.color.y.bits
    } else if k == 8 {
        instance.color.z.bits
    } else {
        instance.flags
    }
}

/// The words of instances, ten for each.
pub open spec fn instance_words(instances: Seq<Instance>) -> Seq<u32> {
    Seq::new(10 * instances.len(), |i: int| instance_word(instances[i / 10], i % 10))
}

/// The words of instance number `i` are, in order, the three of its position, the three of its
/// scale, the red, green and blue of its colour, and its flags.
pub open spec fn stands_at(words: Seq<u32>, i: int, instance: Instance) -> bool {
    &&& words[10 * i] == instance.position.x.bits
    &&& words[10 * i + 1] == instance.position.y.bits
    &&& words[10 * i + 2] == instance.position.z.bits
    &&& words[10 * i + 3] == instance.scale.x.bits
    &&& words[10 * i + 4] == instance.scale.y.bits
    &&& words[10 * i + 5] == instance.scale.z.bits
    &&& words[10 * i + 6] == instance.color.x.bits
    &&& words[10 * i + 7] == instance.color.y.bits
    &&& words[10 * i + 8] == instance.color.z.bits
    &&& words[10 * i + 9] == instance.flags
}

/// The words of instances.
pub fn words_of(instances: &Vec<Instance>) -> (r: Vec<u32>)
    requires
        10 * instances.len() <= usize::MAX,
    ensures
        r@ == instance_words(instances@),
        r.len() == 10 * instances.len(),
        forall|i: int|
            0 <= i < instances.len() ==> #[trigger] stands_at(r@, i, instances@[i]),
{
    let mut words: Vec<u32> = Vec::new();
    let mut i: usize = 0;
    while i < instances.len()
        invariant
            i <= instances.len(),
            10 * instances.len() <= usize::MAX,
            words.len() == 10 * i,
            forall|j: int|
                0 <= j < 10 * i ==> #[trigger] words@[j] == instance_word(
                    instances@[j / 10],
                    j % 10,
                ),
        decreases instances.len() - i,
    {
        let instance = instances[i];
        let ghost before = words@;
        words.push(instance.position.x.bits);
        words.push(instance.position.y.bits);
        words.push(instance.position.z.bits);
        words.push(instance.scale.x.bits);
        words.push(instance.scale.y.bits);
        words.push(instance.scale.z.bits);
        words.push(instance.color.x.bits);
        words.push(instance.color.y.bits);
        words.push(instance.color.z.bits);
        words.push(instance.flags);
        proof {
            assert forall|j: int| 0 <= j < 10 * (i + 1) implies #[trigger] words@[j]
                == instance_word(instances@[j / 10], j % 10) by {
                if j < 10 * i {
                    assert(words@[j] == before[j]);
                } else {
                    assert(j / 10 == i && j % 10 == j - 10 * i);
                }
            }
        }
        i += 1;
    }
    assert(words@ =~= instance_words(instances@));
    proof {
        assert forall|i: int| 0 <= i < instances.len() implies #[trigger] stands_at(
            words@,
            i,
            instances@[i],
        ) by {
            law_words_stand_in_order(instances@, i);
        }
    }
    words
}

/// The words of two lists of instances are the same only if the lists are: the layout leaves
/// nothing out.
pub proof fn law_words_determine_instances(a: Seq<Instance>, b: Seq<Instance>)
    requires
        instance_words(a) == instance_words(b),
    ensures
        a == b,
{
    let (x, y) = (instance_words(a), instance_words(b));
    assert(x.len() == 10 * a.len() && y.len() == 10 * b.len());
    assert forall|i: int| 0 <= i < a.len() implies a[i] == b[i] by {
        assert forall|k: int| 0 <= k < 10 implies #[trigger] instance_word(a[i], k)
            == instance_word(b[i], k) by {
            assert(x[10 * i + k] == y[10 * i + k]);
            assert((10 * i + k) / 10 == i && (10 * i + k) % 10 == k);
        }
        assert(instance_word(a[i], 0) == instance_word(b[i], 0));
        assert(instance_word(a[i], 1) == instance_word(b[i], 1));
        assert(instance_word(a[i], 2) == instance_word(b[i], 2));
        assert(instance_word(a[i], 3) == instance_word(b[i], 3));
        assert(instance_word(a[i], 4) == instance_word(b[i], 4));
        assert(instance_word(a[i], 5) == instance_word(b[i], 5));
        assert(instance_word(a[i], 6) == instance_word(b[i], 6));
        assert(instance_word(a[i], 7) == instance_word(b[i], 7));
        assert(instance_word(a[i], 8) == instance_word(b[i], 8));
        assert(instance_word(a[i], 9) == instance_word(b[i], 9));
    }
    assert(a =~= b);
}

/// The ten words of an instance stand in the order in which the shader reads them: the three of its
/// position, the three of its scale, the red, green and blue of its colour, and its flags; and the
/// instances stand one after the other.
pub proof fn law_words_stand_in_order(instances: Seq<Instance>, i: int)
    requires
        0 <= i < instances.len(),
    ensures
        instance_words(instances).len() == 10 * instances.len(),
        instance_words(instances)[10 * i] == instances[i].position.x.bits,
        instance_words(instances)[10 * i + 1] == instances[i].position.y.bits,
        instance_words(instances)[10 * i + 2] == instances[i].position.z.bits,
        instance_words(instances)[10 * i + 3] == instances[i].scale.x.bits,
        instance_words(instances)[10 * i + 4] == instances[i].scale.y.bits,
        instance_words(instances)[10 * i + 5] == instances[i].scale.z.bits,
        instance_words(instances)[10 * i + 6] == instances[i].color.x.bits,
        instance_words(instances)[10 * i + 7] == instances[i].color.y.bits,
        instance_words(instances)[10 * i + 8] == instances[i].color.z.bits,
        instance_words(instances)[10 * i + 9] == instances[i].flags,
{
    assert forall|k: int| 0 <= k < 10 implies #[trigger] instance_words(instances)[10 * i + k]
        == instance_word(instances[i], k) by {
        assert((10 * i + k) / 10 == i && (10 * i + k) % 10 == k);
    }
    assert(instance_words(instances)[10 * i + 0] == instance_word(instances[i], 0));
}

/// Of the flags, bit 0 tells that an instance spins and bit 1 that it is selected; there are no
/// others.
pub proof fn law_flags_are_two_bits(spin: bool, selected: bool)
    ensures
        flag_word(spin, selected) == (if spin {
            1int
        } else {
            0
        }) + (if selected {
            2int
        } else {
            0
        }),
{
    assert(1u32 | 2u32 == 3) by (bit_vector);
    assert(1u32 | 0u32 == 1 && 0u32 | 2u32 == 2 && 0u32 | 0u32 == 0) by (bit_vector);
}

/// The ground lies flat below the origin, as long as it is wide, and neither spins nor can be
/// selected.
pub proof fn law_ground_lies_flat(r: Instance)
    requires
        call_ensures(ground, (), r),
    ensures
        r.position.x.bits == 0 && r.position.z.bits == 0,
        r.position.y.below(Scalar { bits: 0 }),
        r.scale.x == r.scale.z,
        (Scalar { bits: 0 }).below(r.scale.y) && r.scale.y.below(r.scale.x),
        r.flags == 0,
{
}

} // verus!
