//! The scene of the editor: its objects, which of them is selected, and what a change sets off.
use crate::engine::Shared;
#[allow(unused_imports)]
use crate::engine::next_version;
use crate::instance::{Derived, Instance, SELECTED, SPIN, Triple};
#[allow(unused_imports)]
use crate::instance::{flag_word, law_flags_are_two_bits, law_flags_tell};
use crate::scalar::Scalar;
use crate::text::decimal_text;
#[allow(unused_imports)]
use crate::text::{decimal, law_decimal_has_value, law_decimal_is_injective, value};
use vstd::prelude::*;

verus! {

/// How many cubes the editor starts with.
pub const INITIAL_CUBES: usize = 8;

/// How many colours the palette has.
pub const PALETTE_LEN: usize = 6;

/// A colour by hue, saturation, lightness and opacity.
#[derive(Clone, Copy, Debug, PartialEq, Eq, Structural)]
pub struct Hsla {
    pub h: Scalar,
    pub s: Scalar,
    pub l: Scalar,
    pub a: Scalar,
}

/// Colour `i` of the palette, opaque.
pub open spec fn palette_color(i: int) -> Hsla {
    let (h, s, l): (u32, u32, u32) = if i == 0 {
        (0, 0x3f33_3333, 0x3f0c_cccd)
    } else if i == 1 {
        (0x3da3_d70a, 0x3f4c_cccd, 0x3f0c_cccd)
    } else if i == 2 {
        (0x3e0f_5c29, 0x3f4c_cccd, 0x3f00_0000)
    } else if i == 3 {
        (0x3eb8_51ec, 0x3f00_0000, 0x3ee6_6666)
    } else if i == 4 {
        (0x3f14_7ae1, 0x3f19_999a, 0x3f00_0000)
    } else {
        (0x3f47_ae14, 0x3f00_0000, 0x3f0c_cccd)
    };
    Hsla {
        h: Scalar { bits: h },
        s: Scalar { bits: s },
        l: Scalar { bits: l },
        a: Scalar { bits: 0x3f80_0000 },
    }
}

/// Colour `i` of the palette.
pub fn palette(i: usize) -> (r: Hsla)
    requires
        i < PALETTE_LEN,
    ensures
        r == palette_color(i as int),
{
    let (h, s, l): (u32, u32, u32) = if i == 0 {
        (0, 0x3f33_3333, 0x3f0c_cccd)
    } else if i == 1 {
        (0x3da3_d70a, 0x3f4c_cccd, 0x3f0c_cccd)
    } else if i == 2 {
        (0x3e0f_5c29, 0x3f4c_cccd, 0x3f00_0000)
    } else if i == 3 {
        (0x3eb8_51ec, 0x3f00_0000, 0x3ee6_6666)
    } else if i == 4 {
        (0x3f14_7ae1, 0x3f19_999a, 0x3f00_0000)
    } else {
        (0x3f47_ae14, 0x3f00_0000, 0x3f0c_cccd)
    };
    Hsla {
        h: Scalar { bits: h },
        s: Scalar { bits: s },
        l: Scalar { bits: l },
        a: Scalar { bits: 0x3f80_0000 },
    }
}

/// The scale that object number `n` starts with: 0.6, 0.9 and 1.2 in turn, as the float sums
/// `0.6 + k * 0.3` come out.
pub open spec fn initial_scale(n: int) -> Scalar {
    if n % 3 == 0 {
        Scalar { bits: 0x3f19_999a }
    } else if n % 3 == 1 {
        Scalar { bits: 0x3f66_6667 }
    } else {
        Scalar { bits: 0x3f99_999a }
    }
}

/// The smallest scale that an object can be shrunk to, 0.2.
pub open spec fn smallest_scale() -> Scalar {
    Scalar { bits: 0x3e4c_cccd }
}

/// The largest scale that an object can be grown to, 3.
pub open spec fn largest_scale() -> Scalar {
    Scalar { bits: 0x4040_0000 }
}

/// An object of the scene.
pub struct Object {
    pub name: String,
    pub color: Hsla,
    pub position: Triple,
    pub scale: Scalar,
    pub spin: bool,
    pub selected: bool,
}

/// The object with its selection set.
pub open spec fn with_selection(object: Object, selected: bool) -> Object {
    Object { selected, ..object }
}

impl Object {
    /// The object as the GPU draws it. The outside computes where the middle of the object is, so
    /// that it stands on the ground, and its colour in red, green and blue.
    pub fn instance(&self, derived: Derived) -> (r: Instance)
        ensures
            r == self.as_instance(derived),
    {
        let spin: u32 = if self.spin {
            SPIN
        } else {
            0
        };
        let selected: u32 = if self.selected {
            SELECTED
        } else {
            0
        };
        Instance {
            position: Triple { x: self.position.x, y: derived.center_y, z: self.position.z },
            scale: Triple { x: self.scale, y: self.scale, z: self.scale },
            color: derived.color,
            flags: spin | selected,
        }
    }

    /// The object as the GPU draws it.
    pub open spec fn as_instance(self, derived: Derived) -> Instance {
        Instance {
            position: Triple { x: self.position.x, y: derived.center_y, z: self.position.z },
            scale: Triple { x: self.scale, y: self.scale, z: self.scale },
            color: derived.color,
            flags: flag_word(self.spin, self.selected),
        }
    }
}

/// A change to the selected object.
#[derive(Clone, Copy, Debug, PartialEq, Eq, Structural)]
pub enum Edit {
    Color(Hsla),
    /// Shrinks to the given scale, which is a step of 0.2 below the present one.
    Shrink(Scalar),
    /// Grows to the given scale, which is a step of 0.2 above the present one.
    Grow(Scalar),
    ToggleSpin,
}

/// The object after a change.
pub open spec fn edited(object: Object, edit: Edit) -> Object {
    match edit {
        Edit::Color(color) => Object { color, ..object },
        Edit::Shrink(scale) => Object {
            scale: if scale.nan() || scale.below(smallest_scale()) {
                smallest_scale()
            } else {
                scale
            },
            ..object
        },
        Edit::Grow(scale) => Object {
            scale: if scale.nan() || largest_scale().below(scale) {
                largest_scale()
            } else {
                scale
            },
            ..object
        },
        Edit::ToggleSpin => Object { spin: !object.spin, ..object },
    }
}

/// What is to be done after a change, in order.
#[derive(Clone, Copy, Debug, PartialEq, Eq, Structural)]
pub enum Effect {
    /// The views of this object are out of date.
    NotifyObject(usize),
    /// The engine needs a new picture of the scene.
    Publish,
    /// The views of the list and of the selection are out of date.
    NotifyModel,
}

/// The scene. An object is known by its number: they are numbered as they are made, and a number
/// stays good after its object was removed, for the views that still show it.
pub struct Model {
    /// Every object made so far.
    pub entities: Vec<Object>,
    /// The numbers of the objects in the scene, in the order in which they were added.
    pub listing: Vec<usize>,
    /// The selected object.
    pub selected: Option<usize>,
}

/// The name of object number `n`.
pub open spec fn object_name(n: int) -> Seq<char> {
    "Cube "@ + decimal((n + 1) as nat)
}

/// What object `i` becomes when the selection goes from `from` to `to`.
pub open spec fn reselected(
    object: Object,
    i: int,
    from: Option<usize>,
    to: Option<usize>,
) -> Object {
    if to matches Some(id) && id == i {
        with_selection(object, true)
    } else if from matches Some(id) && id == i {
        with_selection(object, false)
    } else {
        object
    }
}

/// What a change of the selection sets off.
pub open spec fn selection_effects(from: Option<usize>, to: Option<usize>) -> Seq<Effect> {
    let old = match from {
        Some(id) => seq![Effect::NotifyObject(id)],
        None => Seq::empty(),
    };
    let new = match to {
        Some(id) => seq![Effect::NotifyObject(id)],
        None => Seq::empty(),
    };
    old + new + seq![Effect::Publish, Effect::NotifyModel]
}

/// The numbers of a list without one of them.
pub open spec fn without(listing: Seq<usize>, id: usize) -> Seq<usize> {
    listing.filter(|other: usize| other != id)
}

/// The last number of a list.
pub open spec fn last_of(listing: Seq<usize>) -> Option<usize> {
    if listing.len() == 0 {
        None
    } else {
        Some(listing.last())
    }
}

impl Model {
    /// The numbers name objects, the list is in order without repetition, and the objects have the
    /// names they were made with.
    pub open spec fn wf(self) -> bool {
        &&& forall|i: int|
            0 <= i < self.listing.len() ==> #[trigger] self.listing@[i] < self.entities.len()
        &&& forall|i: int, j: int|
            0 <= i < j < self.listing.len() ==> self.listing@[i] < self.listing@[j]
        &&& self.selected matches Some(id) ==> id < self.entities.len()
        &&& forall|i: int|
            0 <= i < self.entities.len() ==> (#[trigger] self.entities@[i]).name@ == object_name(i)
    }

    /// Of the objects in the scene, exactly the selected one is marked as selected.
    pub open spec fn marked(self) -> bool {
        forall|i: int|
            0 <= i < self.listing.len() ==> (self.entities@[#[trigger] self.listing@[i] as
            int].selected <==> self.selected == Some(self.listing@[i]))
    }

    /// The objects of the scene as the GPU draws them, in the order of the list.
    pub open spec fn drawn_as(self, derived: Seq<Derived>) -> Seq<Instance> {
        Seq::new(
            self.listing@.len(),
            |i: int| self.entities@[self.listing@[i] as int].as_instance(derived[i]),
        )
    }

    /// An empty scene.
    pub fn new() -> (r: Model)
        ensures
            r.wf(),
            r.marked(),
            r.entities.len() == 0,
            r.listing.len() == 0,
            r.selected is None,
    {
        Model { entities: Vec::new(), listing: Vec::new(), selected: None }
    }

    /// Where the next object goes: its number, which turns it round the middle of the scene, and
    /// the ring that it stands on, of five.
    pub fn next_place(&self) -> (r: (usize, usize))
        ensures
            r.0 == self.entities.len(),
            r.1 == self.entities.len() % 5,
    {
        let n: usize = self.entities.len();
        (n, n % 5)
    }

    /// Makes an object at `position`, adds it to the scene and selects it.
    pub fn add(&mut self, position: Triple) -> (r: Vec<Effect>)
        requires
            old(self).wf(),
            old(self).entities.len() < usize::MAX,
        ensures
            final(self).wf(),
            old(self).marked() ==> final(self).marked(),
            final(self).entities.len() == old(self).entities.len() + 1,
            forall|i: int|
                0 <= i < old(self).entities.len() ==> #[trigger] final(self).entities@[i]
                    == reselected(
                    old(self).entities@[i],
                    i,
                    old(self).selected,
                    final(self).selected,
                ),
            ({
                let n = old(self).entities.len() as int;
                let made = final(self).entities@[n];
                &&& made.name@ == object_name(n)
                &&& made.color == palette_color(n % 6)
                &&& made.position == position
                &&& made.scale == initial_scale(n)
                &&& made.spin == (n % 2 == 0)
                &&& made.selected
            }),
            final(self).listing@ == old(self).listing@.push(old(self).entities.len()),
            final(self).selected == Some(old(self).entities.len()),
            r@ == selection_effects(old(self).selected, final(self).selected),
    {
        let n: usize = self.entities.len();
        let mut name = String::from_str("Cube ");
        name.append(decimal_text(n as u64 + 1).as_str());
        let scale = if n % 3 == 0 {
            Scalar { bits: 0x3f19_999a }
        } else if n % 3 == 1 {
            Scalar { bits: 0x3f66_6667 }
        } else {
            Scalar { bits: 0x3f99_999a }
        };
        let object = Object {
            name,
            color: palette(n % PALETTE_LEN),
            position,
            scale,
            spin: n % 2 == 0,
            selected: false,
        };
        assert(object.name@ =~= object_name(n as int));
        self.entities.push(object);
        self.listing.push(n);
        proof {
            assert forall|i: int| 0 <= i < self.entities.len() implies (
            #[trigger] self.entities@[i]).name@ == object_name(i) by {
                if i < n {
                    assert(self.entities@[i] == old(self).entities@[i]);
                }
            }
            if old(self).marked() {
                assert forall|i: int| 0 <= i < self.listing.len() implies (
                self.entities@[#[trigger] self.listing@[i] as int].selected <==> self.selected
                    == Some(self.listing@[i])) by {
                    if i < old(self).listing.len() {
                        assert(self.listing@[i] == old(self).listing@[i]);
                    }
                }
                assert(self.marked());
            }
        }
        self.select(Some(n))
    }

    /// Selects an object, or none. The object need not be in the scene any more.
    pub fn select(&mut self, object: Option<usize>) -> (r: Vec<Effect>)
        requires
            old(self).wf(),
            object matches Some(id) ==> id < old(self).entities.len(),
        ensures
            final(self).wf(),
            old(self).marked() ==> final(self).marked(),
            final(self).entities.len() == old(self).entities.len(),
            forall|i: int|
                0 <= i < old(self).entities.len() ==> #[trigger] final(self).entities@[i]
                    == reselected(old(self).entities@[i], i, old(self).selected, object),
            final(self).listing == old(self).listing,
            final(self).selected == object,
            r@ == selection_effects(old(self).selected, object),
    {
        let mut effects: Vec<Effect> = Vec::new();
        match self.selected.take() {
            Some(id) => {
                self.entities[id].selected = false;
                effects.push(Effect::NotifyObject(id));
            },
            None => {},
        }
        match object {
            Some(id) => {
                self.entities[id].selected = true;
                effects.push(Effect::NotifyObject(id));
            },
            None => {},
        }
        self.selected = object;
        effects.push(Effect::Publish);
        effects.push(Effect::NotifyModel);
        proof {
            let before = *old(self);
            assert forall|i: int| 0 <= i < before.entities.len() implies
                #[trigger] self.entities@[i] == reselected(
                before.entities@[i],
                i,
                before.selected,
                object,
            ) by {}
            assert forall|i: int| 0 <= i < self.entities.len() implies (
            #[trigger] self.entities@[i]).name@ == object_name(i) by {
                assert(before.entities@[i].name@ == object_name(i));
            }
            assert(effects@ =~= selection_effects(before.selected, object));
            if before.marked() {
                assert forall|i: int| 0 <= i < self.listing.len() implies (
                self.entities@[#[trigger] self.listing@[i] as int].selected <==> self.selected
                    == Some(self.listing@[i])) by {
                    let id = before.listing@[i];
                    assert(before.entities@[id as int].selected <==> before.selected == Some(id));
                }
            }
        }
        effects
    }

    /// Takes the selected object out of the scene, and selects the last one that is left. Does
    /// nothing if none is selected.
    pub fn remove_selected(&mut self) -> (r: Vec<Effect>)
        requires
            old(self).wf(),
        ensures
            final(self).wf(),
            old(self).marked() ==> final(self).marked(),
            final(self).entities.len() == old(self).entities.len(),
            match old(self).selected {
                Some(id) => {
                    let left = without(old(self).listing@, id);
                    &&& final(self).listing@ == left
                    &&& final(self).selected == last_of(left)
                    &&& forall|i: int|
                        0 <= i < old(self).entities.len() ==> #[trigger] final(self).entities@[i]
                            == reselected(old(self).entities@[i], i, None, last_of(left))
                    &&& r@ == selection_effects(None, last_of(left))
                },
                None => *final(self) == *old(self) && r@ == Seq::<Effect>::empty(),
            },
    {
        match self.selected {
            Some(id) => {
                self.selected = None;
                self.listing = listing_without(&self.listing, id);
                let next: Option<usize> = if self.listing.len() == 0 {
                    None
                } else {
                    Some(self.listing[self.listing.len() - 1])
                };
                proof {
                    lemma_without(old(self).listing@, id);
                    let (before, after) = (old(self).listing@, self.listing@);
                    assert forall|i: int| 0 <= i < after.len() implies #[trigger] after[i]
                        < self.entities.len() by {
                        assert(without(before, id).contains(after[i]));
                    }
                    if old(self).marked() {
                        assert forall|i: int| 0 <= i < self.listing.len() implies (
                        self.entities@[#[trigger] self.listing@[i] as int].selected
                            <==> self.selected == Some(self.listing@[i])) by {
                            let k = before.index_of(after[i]);
                            assert(without(before, id).contains(after[i]));
                            assert(before[k] == after[i]);
                            assert(after[i] != id);
                        }
                        assert(self.marked());
                    }
                }
                self.select(next)
            },
            None => Vec::new(),
        }
    }

    /// Changes the selected object. Only its own views are out of date after that. Does nothing if
    /// none is selected.
    pub fn edit(&mut self, edit: Edit) -> (r: Vec<Effect>)
        requires
            old(self).wf(),
        ensures
            final(self).wf(),
            old(self).marked() ==> final(self).marked(),
            final(self).listing == old(self).listing,
            final(self).selected == old(self).selected,
            match old(self).selected {
                Some(id) => {
                    &&& final(self).entities@ == old(self).entities@.update(
                        id as int,
                        edited(old(self).entities@[id as int], edit),
                    )
                    &&& r@ == seq![Effect::NotifyObject(id), Effect::Publish]
                },
                None => *final(self) == *old(self) && r@ == Seq::<Effect>::empty(),
            },
    {
        let mut effects: Vec<Effect> = Vec::new();
        match self.selected {
            Some(id) => {
                match edit {
                    Edit::Color(color) => {
                        self.entities[id].color = color;
                    },
                    Edit::Shrink(scale) => {
                        self.entities[id].scale = scale.max(Scalar { bits: 0x3e4c_cccd });
                    },
                    Edit::Grow(scale) => {
                        self.entities[id].scale = scale.min(Scalar { bits: 0x4040_0000 });
                    },
                    Edit::ToggleSpin => {
                        let spin = self.entities[id].spin;
                        self.entities[id].spin = !spin;
                    },
                }
                effects.push(Effect::NotifyObject(id));
                effects.push(Effect::Publish);
                proof {
                    let before = *old(self);
                    let want = before.entities@.update(
                        id as int,
                        edited(before.entities@[id as int], edit),
                    );
                    assert(self.entities@ =~= want);
                    assert forall|i: int| 0 <= i < self.entities.len() implies (
                    #[trigger] self.entities@[i]).name@ == object_name(i) by {
                        assert(before.entities@[i].name@ == object_name(i));
                    }
                    if before.marked() {
                        assert forall|i: int| 0 <= i < self.listing.len() implies (
                        self.entities@[#[trigger] self.listing@[i] as int].selected
                            <==> self.selected == Some(self.listing@[i])) by {
                            let k = before.listing@[i];
                            assert(before.entities@[k as int].selected <==> before.selected == Some(
                                k,
                            ));
                        }
                    }
                }
            },
            None => {},
        }
        effects
    }

    /// The objects of the scene as the GPU draws them, given what the outside derives of each.
    pub fn instances(&self, derived: &Vec<Derived>) -> (r: Vec<Instance>)
        requires
            self.wf(),
            derived.len() == self.listing.len(),
        ensures
            r@ == self.drawn_as(derived@),
    {
        let mut r: Vec<Instance> = Vec::new();
        let mut i: usize = 0;
        while i < self.listing.len()
            invariant
                self.wf(),
                i <= self.listing.len(),
                derived.len() == self.listing.len(),
                r.len() == i,
                forall|j: int|
                    0 <= j < i ==> #[trigger] r@[j] == self.entities@[self.listing@[j] as
                    int].as_instance(derived@[j]),
            decreases self.listing.len() - i,
        {
            let id: usize = self.listing[i];
            let instance = self.entities[id].instance(derived[i]);
            r.push(instance);
            i += 1;
        }
        assert(r@ =~= self.drawn_as(derived@));
        r
    }

    /// Publishes the scene to the engine, given what the outside derives of each object.
    pub fn publish(&self, derived: &Vec<Derived>, shared: &mut Shared)
        requires
            self.wf(),
            derived.len() == self.listing.len(),
        ensures
            final(shared).scene@ == self.drawn_as(derived@),
            final(shared).version == next_version(old(shared).version),
            final(shared).camera == old(shared).camera,
            final(shared).frames == old(shared).frames,
    {
        shared.publish(self.instances(derived));
    }

    /// What the inspector shows.
    pub fn inspector(&self) -> (r: Inspector)
        requires
            self.wf(),
        ensures
            match self.selected {
                Some(id) => {
                    let object = self.entities@[id as int];
                    r matches Inspector::Object { name, swatches, spin_label } && name@
                        == object.name@ && swatches@ == Seq::new(
                        6,
                        |i: int| object.color == palette_color(i),
                    ) && spin_label@ == if object.spin {
                        "activée"@
                    } else {
                        "arrêtée"@
                    }
                },
                None => r is Empty,
            },
    {
        match self.selected {
            Some(id) => {
                let color = self.entities[id].color;
                let mut swatches: Vec<bool> = Vec::new();
                let mut i: usize = 0;
                while i < PALETTE_LEN
                    invariant
                        i <= PALETTE_LEN,
                        swatches.len() == i,
                        forall|j: int|
                            0 <= j < i ==> #[trigger] swatches@[j] == (color == palette_color(j)),
                    decreases PALETTE_LEN - i,
                {
                    swatches.push(color == palette(i));
                    i += 1;
                }
                assert(swatches@ =~= Seq::new(6, |i: int| color == palette_color(i)));
                let spin_label: &'static str = if self.entities[id].spin {
                    "activée"
                } else {
                    "arrêtée"
                };
                Inspector::Object { name: self.entities[id].name.clone(), swatches, spin_label }
            },
            None => Inspector::Empty,
        }
    }

    /// The heading of the list.
    pub fn heading(&self) -> (r: String)
        ensures
            r@ == "SCÈNE · "@ + decimal(self.listing@.len()) + " objets"@,
    {
        let mut text = String::from_str("SCÈNE · ");
        text.append(decimal_text(self.listing.len() as u64).as_str());
        text.append(" objets");
        text
    }

    /// The numbers of the listed objects as keys of the cache of rows.
    pub fn row_keys(&self) -> (r: Vec<u64>)
        ensures
            r.len() == self.listing.len(),
            forall|i: int| 0 <= i < r.len() ==> #[trigger] r@[i] == self.listing@[i],
    {
        let mut r: Vec<u64> = Vec::new();
        let mut i: usize = 0;
        while i < self.listing.len()
            invariant
                i <= self.listing.len(),
                r.len() == i,
                forall|j: int| 0 <= j < i ==> #[trigger] r@[j] == self.listing@[j],
            decreases self.listing.len() - i,
        {
            r.push(self.listing[i] as u64);
            i += 1;
        }
        r
    }
}

/// What the inspector shows.
pub enum Inspector {
    /// No object is selected.
    Empty,
    /// The selected object: its name, which colour of the palette it has, and whether it spins.
    Object { name: String, swatches: Vec<bool>, spin_label: &'static str },
}

/// The numbers of a list without one of them.
fn listing_without(listing: &Vec<usize>, id: usize) -> (r: Vec<usize>)
    ensures
        r@ == without(listing@, id),
{
    let mut r: Vec<usize> = Vec::new();
    let mut i: usize = 0;
    assert(listing@.take(0) =~= Seq::empty());
    proof {
        reveal(Seq::filter);
    }
    while i < listing.len()
        invariant
            i <= listing.len(),
            r@ == without(listing@.take(i as int), id),
        decreases listing.len() - i,
    {
        let other: usize = listing[i];
        proof {
            reveal(Seq::filter);
            assert(listing@.take(i + 1).drop_last() =~= listing@.take(i as int));
        }
        if other != id {
            r.push(other);
        }
        i += 1;
    }
    assert(listing@.take(i as int) =~= listing@);
    r
}

/// Taking a number out of a list in order leaves the others, in order.
proof fn lemma_without(listing: Seq<usize>, id: usize)
    requires
        forall|i: int, j: int| 0 <= i < j < listing.len() ==> listing[i] < listing[j],
    ensures
        forall|other: usize| #[trigger]
            without(listing, id).contains(other) <==> listing.contains(other) && other != id,
        forall|i: int, j: int|
            0 <= i < j < without(listing, id).len() ==> without(listing, id)[i] < without(
                listing,
                id,
            )[j],
        forall|i: int| 0 <= i < without(listing, id).len() ==> #[trigger] without(listing, id)[i] != id,
    decreases listing.len(),
{
    reveal(Seq::filter);
    let left = without(listing, id);
    if listing.len() > 0 {
        let front = listing.drop_last();
        let rest = without(front, id);
        assert forall|i: int, j: int| 0 <= i < j < front.len() implies front[i] < front[j] by {
            assert(listing[i] < listing[j]);
        }
        lemma_without(front, id);
        let last = listing.last();
        assert forall|other: usize| #[trigger]
            left.contains(other) <==> listing.contains(other) && other != id by {
            if listing.contains(other) && other != id {
                let k = listing.index_of(other);
                if k < front.len() {
                    assert(front[k] == other);
                    assert(rest.contains(other));
                    let m = rest.index_of(other);
                    assert(left[m] == other);
                } else {
                    assert(left[left.len() - 1] == other);
                }
            }
            if left.contains(other) {
                let k = left.index_of(other);
                if k < rest.len() {
                    assert(rest[k] == other);
                    assert(rest.contains(other));
                    let m = front.index_of(other);
                    assert(listing[m] == other);
                } else {
                    assert(other == last);
                    assert(listing[listing.len() - 1] == other);
                }
            }
        }
        assert forall|i: int| 0 <= i < rest.len() implies #[trigger] rest[i] < last by {
            assert(rest.contains(rest[i]));
            let m = front.index_of(rest[i]);
            assert(listing[m] < listing[listing.len() - 1]);
        }
        assert forall|i: int, j: int| 0 <= i < j < left.len() implies left[i] < left[j] by {
            if j < rest.len() {
                assert(rest[i] < rest[j]);
            } else {
                assert(left[i] == rest[i]);
            }
        }
        assert forall|i: int| 0 <= i < left.len() implies #[trigger] left[i] != id by {
            assert(left.contains(left[i]));
        }
    }
}

/// Removing what was just added puts the list back as it was.
pub proof fn law_remove_undoes_add(listing: Seq<usize>, n: usize)
    requires
        forall|i: int| 0 <= i < listing.len() ==> #[trigger] listing[i] < n,
    ensures
        without(listing.push(n), n) == listing,
{
    reveal(Seq::filter);
    assert(listing.push(n).drop_last() =~= listing);
    lemma_nothing_to_remove(listing, n);
}

/// A list that does not have a number is the same without it.
proof fn lemma_nothing_to_remove(listing: Seq<usize>, id: usize)
    requires
        forall|i: int| 0 <= i < listing.len() ==> #[trigger] listing[i] != id,
    ensures
        without(listing, id) == listing,
    decreases listing.len(),
{
    reveal(Seq::filter);
    if listing.len() > 0 {
        let front = listing.drop_last();
        assert forall|i: int| 0 <= i < front.len() implies #[trigger] front[i] != id by {
            assert(front[i] == listing[i]);
        }
        lemma_nothing_to_remove(front, id);
        assert(listing[listing.len() - 1] == listing.last());
        assert(front.push(listing.last()) =~= listing);
    } else {
        assert(without(listing, id) =~= listing);
    }
}

/// At most one object that the GPU draws is drawn as selected, and it is the selected one; the
/// objects that spin are drawn as spinning.
pub proof fn law_one_instance_is_selected(model: Model, derived: Seq<Derived>, i: int)
    requires
        model.wf(),
        model.marked(),
        0 <= i < model.listing.len(),
    ensures
        ({
            let object = model.entities@[model.listing@[i] as int];
            let flags = object.as_instance(derived[i]).flags;
            &&& flags & SELECTED != 0 <==> model.selected == Some(model.listing@[i])
            &&& flags & SPIN != 0 <==> object.spin
        }),
{
    let object = model.entities@[model.listing@[i] as int];
    law_flags_tell(object.spin, object.selected);
    assert(model.entities@[model.listing@[i] as int].selected <==> model.selected == Some(
        model.listing@[i],
    ));
}

/// No two objects ever made share a name.
pub proof fn law_names_are_distinct(model: Model, i: int, j: int)
    requires
        model.wf(),
        0 <= i < model.entities.len(),
        0 <= j < model.entities.len(),
        model.entities@[i].name@ == model.entities@[j].name@,
    ensures
        i == j,
{
    let (a, b) = (decimal((i + 1) as nat), decimal((j + 1) as nat));
    let (x, y) = (object_name(i), object_name(j));
    assert(model.entities@[i].name@ == x && model.entities@[j].name@ == y);
    let k = "Cube "@.len() as int;
    assert(x.subrange(k, x.len() as int) =~= a);
    assert(y.subrange(k, y.len() as int) =~= b);
    law_decimal_is_injective((i + 1) as nat, (j + 1) as nat);
}

/// Editing keeps the scale of an object between its smallest and its largest value, given that
/// shrinking asks for no larger a scale than the present one, and growing for no smaller.
pub proof fn law_scale_stays_in_range(object: Object, edit: Edit)
    requires
        object.scale.between(smallest_scale(), largest_scale()),
        offered(object, edit),
    ensures
        edited(object, edit).scale.between(smallest_scale(), largest_scale()),
{
}

/// The edit is a step that the inspector offers for the object: shrinking asks for no larger a
/// scale than the present one, and growing for no smaller.
pub open spec fn offered(object: Object, edit: Edit) -> bool {
    match edit {
        Edit::Shrink(scale) => scale.nan() || scale.key() <= object.scale.key(),
        Edit::Grow(scale) => scale.nan() || scale.key() >= object.scale.key(),
        _ => true,
    }
}

/// The object after the first `n` edits.
pub open spec fn edited_all(object: Object, edits: Seq<Edit>, n: int) -> Object
    decreases n,
{
    if n <= 0 {
        object
    } else {
        edited(edited_all(object, edits, n - 1), edits[n - 1])
    }
}

/// How many of the first `n` edits toggle the spin.
pub open spec fn toggles(edits: Seq<Edit>, n: int) -> int
    decreases n,
{
    if n <= 0 {
        0
    } else {
        toggles(edits, n - 1) + if edits[n - 1] is ToggleSpin {
            1int
        } else {
            0int
        }
    }
}

/// Whatever is clicked in the inspector, and however often, the scale stays in range, an even
/// number of toggles leaves the spin as it was and an odd one flips it, and the object keeps its
/// name, its place and its selection.
pub proof fn law_clicks_keep_object(object: Object, edits: Seq<Edit>, n: int)
    requires
        object.scale.between(smallest_scale(), largest_scale()),
        0 <= n <= edits.len(),
        forall|i: int|
            0 <= i < n ==> offered(#[trigger] edited_all(object, edits, i), edits[i]),
    ensures
        ({
            let after = edited_all(object, edits, n);
            &&& after.scale.between(smallest_scale(), largest_scale())
            &&& after.spin == (if toggles(edits, n) % 2 == 0 {
                object.spin
            } else {
                !object.spin
            })
            &&& after.name == object.name
            &&& after.position == object.position
            &&& after.selected == object.selected
        }),
    decreases n,
{
    if n > 0 {
        law_clicks_keep_object(object, edits, n - 1);
        let before = edited_all(object, edits, n - 1);
        assert(offered(before, edits[n - 1]));
        law_scale_stays_in_range(before, edits[n - 1]);
    }
}

/// Every object starts with a scale in range.
pub proof fn law_scale_starts_in_range(n: int)
    ensures
        initial_scale(n).between(smallest_scale(), largest_scale()),
{
}

/// Editing an object changes neither its name nor whether it is selected, and toggling its spin
/// twice changes nothing.
pub proof fn law_edit_keeps_identity(object: Object, edit: Edit)
    ensures
        edited(object, edit).name == object.name,
        edited(object, edit).position == object.position,
        edited(object, edit).selected == object.selected,
        edited(edited(object, Edit::ToggleSpin), Edit::ToggleSpin) == object,
{
}

/// An edit gives the selected object exactly what was asked. A colour becomes the one picked, the
/// spin is flipped. Shrinking to a number that is not below 0.2 leaves exactly that scale, and so
/// does growing to one that is not above 3; only what lies beyond the end is replaced by the end.
/// Nothing else about the object changes, no other object changes, and only the views of this one
/// and the picture are out of date.
pub proof fn law_edit_gives_what_is_asked(
    model: &mut Model,
    edit: Edit,
    effects: Vec<Effect>,
    id: usize,
    i: int,
)
    requires
        old(model).wf(),
        call_ensures(Model::edit, (model, edit), effects),
        old(model).selected == Some(id),
        0 <= i < old(model).entities.len(),
    ensures
        ({
            let before = old(model).entities@[id as int];
            let after = final(model).entities@[id as int];
            &&& match edit {
                Edit::Color(color) => after.color == color,
                _ => after.color == before.color,
            }
            &&& match edit {
                Edit::Shrink(scale) => {
                    let kept = !scale.nan() && scale.key() >= 0x3e4c_cccd;
                    after.scale == if kept {
                        scale
                    } else {
                        Scalar { bits: 0x3e4c_cccd }
                    }
                },
                Edit::Grow(scale) => {
                    let kept = !scale.nan() && scale.key() <= 0x4040_0000;
                    after.scale == if kept {
                        scale
                    } else {
                        Scalar { bits: 0x4040_0000 }
                    }
                },
                _ => after.scale == before.scale,
            }
            &&& after.spin != before.spin <==> edit is ToggleSpin
            &&& after.name == before.name
            &&& after.position == before.position
            &&& after.selected == before.selected
        }),
        final(model).entities.len() == old(model).entities.len(),
        i != id ==> final(model).entities@[i] == old(model).entities@[i],
        final(model).listing == old(model).listing,
        final(model).selected == old(model).selected,
        effects.len() == 2,
        effects@[0] == Effect::NotifyObject(id),
        effects@[1] == Effect::Publish,
{
}

/// Without a selection, neither an edit nor a removal does anything.
pub proof fn law_nothing_selected_nothing_done(
    model: &mut Model,
    edit: Edit,
    effects: Vec<Effect>,
    other: &mut Model,
    other_effects: Vec<Effect>,
)
    requires
        old(model).wf(),
        old(other).wf(),
        call_ensures(Model::edit, (model, edit), effects),
        call_ensures(Model::remove_selected, (other,), other_effects),
        old(model).selected is None,
        old(other).selected is None,
    ensures
        *final(model) == *old(model),
        *final(other) == *old(other),
        effects.len() == 0,
        other_effects.len() == 0,
{
}

/// Edits of the scale forget what the scale was: it is the last one asked for, or the end that this
/// one lies beyond.
pub proof fn law_last_scale_decides(a: Object, b: Object, scale: Scalar)
    requires
        scale.between(smallest_scale(), largest_scale()),
    ensures
        edited(a, Edit::Shrink(scale)).scale == scale,
        edited(a, Edit::Grow(scale)).scale == scale,
        edited(a, Edit::Shrink(scale)).scale == edited(b, Edit::Grow(scale)).scale,
        smallest_scale().below(largest_scale()),
        smallest_scale().bits == 0x3e4c_cccd,
        largest_scale().bits == 0x4040_0000,
{
}

/// Selecting moves the mark: the object that is selected is marked, the one that was selected
/// before is not unless it is the same, and no other object changes. Of every object all but the
/// mark stays. The views of exactly these two are out of date, the picture once, and the list
/// last.
pub proof fn law_select_moves_mark(
    model: &mut Model,
    object: Option<usize>,
    effects: Vec<Effect>,
    i: usize,
)
    requires
        old(model).wf(),
        object matches Some(id) ==> id < old(model).entities.len(),
        call_ensures(Model::select, (model, object), effects),
        i < old(model).entities.len(),
    ensures
        final(model).selected == object,
        final(model).listing == old(model).listing,
        final(model).entities.len() == old(model).entities.len(),
        ({
            let before = old(model).entities@[i as int];
            let after = final(model).entities@[i as int];
            &&& after == (Object { selected: after.selected, ..before })
            &&& object == Some(i) ==> after.selected
            &&& old(model).selected == Some(i) && object != Some(i) ==> !after.selected
            &&& old(model).selected != Some(i) && object != Some(i) ==> after == before
        }),
        effects@.contains(Effect::NotifyObject(i)) <==> object == Some(i) || old(model).selected
            == Some(i),
        effects.len() >= 2,
        old(model).selected matches Some(id) ==> effects@[0] == Effect::NotifyObject(id),
        object matches Some(id) ==> effects@[effects.len() - 3] == Effect::NotifyObject(id),
        effects@[effects.len() - 2] == Effect::Publish,
        effects@[effects.len() - 1] == Effect::NotifyModel,
        effects.len() == 2 + (if object is Some {
            1int
        } else {
            0
        }) + (if old(model).selected is Some {
            1int
        } else {
            0
        }),
{
    let from = old(model).selected;
    let all = selection_effects(from, object);
    assert(effects@ == all);
    if from == Some(i) {
        assert(all[0] == Effect::NotifyObject(i));
    }
    if object == Some(i) {
        assert(all[all.len() - 3] == Effect::NotifyObject(i));
    }
}

/// Adding makes one new object, at the place given, puts it at the end of the list and selects it;
/// what was there stays, but for the mark of what was selected.
pub proof fn law_add_appends_and_selects(
    model: &mut Model,
    position: Triple,
    effects: Vec<Effect>,
    i: int,
)
    requires
        old(model).wf(),
        old(model).entities.len() < usize::MAX,
        call_ensures(Model::add, (model, position), effects),
        0 <= i < old(model).entities.len(),
    ensures
        ({
            let n = old(model).entities.len();
            let before = old(model).entities@[i];
            let after = final(model).entities@[i];
            &&& final(model).entities.len() == n + 1
            &&& final(model).entities@[n as int].position == position
            &&& final(model).entities@[n as int].selected
            &&& final(model).selected == Some(n)
            &&& final(model).listing.len() == old(model).listing.len() + 1
            &&& final(model).listing@[final(model).listing.len() - 1] == n
            &&& forall|k: int|
                0 <= k < old(model).listing.len() ==> #[trigger] final(model).listing@[k]
                    == old(model).listing@[k]
            &&& after == (Object { selected: after.selected, ..before })
            &&& old(model).selected == Some(i as usize) ==> !after.selected
            &&& old(model).selected != Some(i as usize) ==> after == before
            &&& effects.len() == if old(model).selected is Some {
                4int
            } else {
                3
            }
            &&& old(model).selected matches Some(id) ==> effects@[0] == Effect::NotifyObject(id)
            &&& effects@[effects.len() - 3] == Effect::NotifyObject(n)
            &&& effects@[effects.len() - 2] == Effect::Publish
            &&& effects@[effects.len() - 1] == Effect::NotifyModel
        }),
{
    let n = old(model).entities.len();
    assert(effects@ == selection_effects(old(model).selected, Some(n)));
}

/// The objects that are made differ as the numbers of their making do: their names all differ,
/// their colours go through the six of the palette in turn, their scales through three, and every
/// other one spins.
pub proof fn law_made_objects_vary(
    first: &mut Model,
    second: &mut Model,
    p: Triple,
    q: Triple,
    first_effects: Vec<Effect>,
    second_effects: Vec<Effect>,
)
    requires
        old(first).wf() && old(second).wf(),
        old(first).entities.len() < usize::MAX && old(second).entities.len() < usize::MAX,
        call_ensures(Model::add, (first, p), first_effects),
        call_ensures(Model::add, (second, q), second_effects),
    ensures
        ({
            let n = old(first).entities.len() as int;
            let m = old(second).entities.len() as int;
            let a = final(first).entities@[n];
            let b = final(second).entities@[m];
            &&& a.name@ == b.name@ <==> n == m
            &&& a.color == b.color <==> n % 6 == m % 6
            &&& a.scale == b.scale <==> n % 3 == m % 3
            &&& a.spin == b.spin <==> n % 2 == m % 2
            &&& n == 0 ==> a.spin
            &&& n < 6 ==> a.color == palette_color(n)
            &&& n % 3 < m % 3 ==> a.scale.below(b.scale)
            &&& exists|k: int| 0 <= k < 6 && a.color == #[trigger] palette_color(k)
        }),
{
    let n = old(first).entities.len() as int;
    let m = old(second).entities.len() as int;
    law_palette_is_distinct(n % 6, m % 6);
    let (x, y) = (decimal((n + 1) as nat), decimal((m + 1) as nat));
    let k = "Cube "@.len() as int;
    assert(object_name(n).subrange(k, object_name(n).len() as int) =~= x);
    assert(object_name(m).subrange(k, object_name(m).len() as int) =~= y);
    if object_name(n) == object_name(m) {
        law_decimal_is_injective((n + 1) as nat, (m + 1) as nat);
    }
    assert(final(first).entities@[n].color == palette_color(n % 6));
}

/// The name of an object says which one it is, counted from one.
pub proof fn law_name_tells_number(model: &mut Model, position: Triple, effects: Vec<Effect>)
    requires
        old(model).wf(),
        old(model).entities.len() < usize::MAX,
        call_ensures(Model::add, (model, position), effects),
    ensures
        ({
            let n = old(model).entities.len() as int;
            let name = final(model).entities@[n].name@;
            &&& name.take(5) == seq!['C', 'u', 'b', 'e', ' ']
            &&& value(name.skip(5)) == n + 1
        }),
{
    let n = old(model).entities.len() as int;
    let name = object_name(n);
    reveal_strlit("Cube ");
    assert(name.take(5) =~= seq!['C', 'u', 'b', 'e', ' ']);
    assert(name.skip(5) =~= decimal((n + 1) as nat));
    law_decimal_has_value((n + 1) as nat);
}

/// The six colours of the palette are opaque and of different hues, which go up.
pub proof fn law_palette_is_distinct(i: int, j: int)
    requires
        0 <= i < 6,
        0 <= j < 6,
    ensures
        palette_color(i) == palette_color(j) <==> i == j,
        i < j ==> palette_color(i).h.below(palette_color(j).h),
        palette_color(i).a.bits == 0x3f80_0000,
{
}

/// Objects stand on five rings in turn, and each is turned on from the last by its number.
pub proof fn law_places_go_round(
    model: Model,
    place: (usize, usize),
    other: Model,
    next: (usize, usize),
)
    requires
        call_ensures(Model::next_place, (&model,), place),
        call_ensures(Model::next_place, (&other,), next),
    ensures
        place.0 == next.0 <==> model.entities.len() == other.entities.len(),
        place.1 < 5,
        other.entities.len() == model.entities.len() + 1 ==> {
            &&& next.0 == place.0 + 1
            &&& next.1 == if place.1 == 4 {
                0
            } else {
                place.1 + 1
            }
        },
        model.entities.len() == 0 ==> place == (0usize, 0usize),
{
}

/// Removing takes exactly the selected object out of the list: the others stay, in their order, and
/// the last of them is selected. No object changes but for the mark of that one.
pub proof fn law_remove_takes_only_selected(
    model: &mut Model,
    effects: Vec<Effect>,
    id: usize,
    other: usize,
)
    requires
        old(model).wf(),
        old(model).selected == Some(id),
        call_ensures(Model::remove_selected, (model,), effects),
    ensures
        final(model).listing@.contains(other) <==> old(model).listing@.contains(other) && other
            != id,
        forall|i: int, j: int|
            0 <= i < j < final(model).listing.len() ==> final(model).listing@[i]
                < final(model).listing@[j],
        final(model).listing.len() == 0 ==> final(model).selected is None,
        final(model).listing.len() > 0 ==> final(model).selected == Some(
            final(model).listing@[final(model).listing.len() - 1],
        ),
        final(model).entities.len() == old(model).entities.len(),
        other < old(model).entities.len() ==> ({
            let before = old(model).entities@[other as int];
            let after = final(model).entities@[other as int];
            &&& after == (Object { selected: after.selected, ..before })
            &&& final(model).selected == Some(other) ==> after.selected
            &&& final(model).selected != Some(other) ==> after == before
        }),
        effects@[effects.len() - 1] == Effect::NotifyModel,
        effects@[effects.len() - 2] == Effect::Publish,
        match final(model).selected {
            Some(next) => effects.len() == 3 && effects@[0] == Effect::NotifyObject(next),
            None => effects.len() == 2,
        },
{
    lemma_without(old(model).listing@, id);
    let left = without(old(model).listing@, id);
    assert(effects@ == selection_effects(None, last_of(left)));
}

/// Adding an object and removing it again puts the list back as it was.
pub proof fn law_add_then_remove(
    added: &mut Model,
    position: Triple,
    effects: Vec<Effect>,
    removed: &mut Model,
    more: Vec<Effect>,
)
    requires
        old(added).wf(),
        old(added).entities.len() < usize::MAX,
        call_ensures(Model::add, (added, position), effects),
        *old(removed) == *final(added),
        call_ensures(Model::remove_selected, (removed,), more),
    ensures
        final(removed).listing@ == old(added).listing@,
        final(removed).entities.len() == old(added).entities.len() + 1,
        old(added).listing.len() > 0 ==> final(removed).selected == Some(
            old(added).listing@[old(added).listing.len() - 1],
        ),
        old(added).listing.len() == 0 ==> final(removed).selected is None,
{
    let n = old(added).entities.len();
    law_remove_undoes_add(old(added).listing@, n);
}

/// Each listed object is drawn once, in the order of the list: where it stands, at the height
/// derived for it, as large as its scale in all directions, in the colour derived for it, spinning
/// if it spins and selected if it is.
pub proof fn law_scene_draws_listed_objects(
    model: Model,
    derived: Vec<Derived>,
    drawn: Vec<Instance>,
    shared: &mut Shared,
    i: int,
)
    requires
        model.wf(),
        derived.len() == model.listing.len(),
        call_ensures(Model::instances, (&model, &derived), drawn),
        call_ensures(Model::publish, (&model, &derived, shared), ()),
        0 <= i < model.listing.len(),
    ensures
        drawn.len() == model.listing.len(),
        final(shared).scene@ == drawn@,
        final(shared).version != old(shared).version,
        old(shared).version < u64::MAX ==> final(shared).version == old(shared).version + 1,
        final(shared).camera == old(shared).camera,
        final(shared).frames == old(shared).frames,
        ({
            let object = model.entities@[model.listing@[i] as int];
            let instance = drawn@[i];
            &&& instance.position.x == object.position.x
            &&& instance.position.y == derived@[i].center_y
            &&& instance.position.z == object.position.z
            &&& instance.scale.x == object.scale
            &&& instance.scale.y == object.scale
            &&& instance.scale.z == object.scale
            &&& instance.color == derived@[i].color
            &&& instance.flags == (if object.spin {
                1int
            } else {
                0
            }) + (if object.selected {
                2int
            } else {
                0
            })
        }),
{
    let object = model.entities@[model.listing@[i] as int];
    law_flags_are_two_bits(object.spin, object.selected);
}

/// The inspector shows the selected object, or none: its name, one swatch per colour of which the
/// one that it has is marked, and a label that tells whether it spins.
pub proof fn law_inspector_shows_selected(model: Model, shown: Inspector, i: int, j: int)
    requires
        model.wf(),
        call_ensures(Model::inspector, (&model,), shown),
        0 <= i < 6,
        0 <= j < 6,
    ensures
        shown is Empty <==> model.selected is None,
        shown matches Inspector::Object { name, swatches, spin_label } ==> {
            let object = model.entities@[model.selected->0 as int];
            &&& name@ == object.name@
            &&& swatches.len() == 6
            &&& swatches@[i] <==> object.color == palette_color(i)
            &&& swatches@[i] && swatches@[j] ==> i == j
            &&& spin_label@ == "activée"@ <==> object.spin
            &&& spin_label@ == "arrêtée"@ <==> !object.spin
        },
{
    law_palette_is_distinct(i, j);
    reveal_strlit("activée");
    reveal_strlit("arrêtée");
    assert("activée"@[1] == 'c' && "arrêtée"@[1] == 'r');
}

/// The list has a row for each listed object, under a key of its own, and its heading counts them.
pub proof fn law_list_has_a_row_each(model: Model, keys: Vec<u64>, heading: String, i: int, j: int)
    requires
        model.wf(),
        call_ensures(Model::row_keys, (&model,), keys),
        call_ensures(Model::heading, (&model,), heading),
        0 <= i < model.listing.len(),
        0 <= j < model.listing.len(),
    ensures
        keys.len() == model.listing.len(),
        keys@[i] == model.listing@[i],
        i < j ==> keys@[i] < keys@[j],
        heading@.take(8) == seq!['S', 'C', 'È', 'N', 'E', ' ', '·', ' '],
        value(heading@.subrange(8, heading@.len() - 7)) == model.listing.len(),
        heading@.skip(heading@.len() - 7) == seq![' ', 'o', 'b', 'j', 'e', 't', 's'],
{
    reveal_strlit("SCÈNE · ");
    reveal_strlit(" objets");
    let count = decimal(model.listing@.len());
    assert(heading@.take(8) =~= "SCÈNE · "@);
    assert(heading@.subrange(8, heading@.len() - 7) =~= count);
    assert(heading@.skip(heading@.len() - 7) =~= " objets"@);
    assert("SCÈNE · "@ =~= seq!['S', 'C', 'È', 'N', 'E', ' ', '·', ' ']);
    assert(" objets"@ =~= seq![' ', 'o', 'b', 'j', 'e', 't', 's']);
    law_decimal_has_value(model.listing@.len());
}

/// A new scene is empty, and nothing is selected.
pub proof fn law_new_scene_is_empty(model: Model)
    requires
        call_ensures(Model::new, (), model),
    ensures
        model.wf() && model.marked(),
        model.entities.len() == 0,
        model.listing.len() == 0,
        model.selected is None,
{
}

/// The colours that the editor offers are those of the palette, each at its own place.
pub proof fn law_palette_offers_each_colour(i: usize, j: usize, a: Hsla, b: Hsla)
    requires
        i < 6,
        j < 6,
        call_ensures(palette, (i,), a),
        call_ensures(palette, (j,), b),
    ensures
        a == b <==> i == j,
        i < j ==> a.h.below(b.h),
        a == palette_color(i as int),
{
    law_palette_is_distinct(i as int, j as int);
    if j < i {
        law_palette_is_distinct(j as int, i as int);
    }
}

/// An object is drawn where it stands at the height derived for it, with its scale the same in all
/// directions and the colour derived for it.
pub proof fn law_object_is_drawn_as_it_is(object: Object, derived: Derived, r: Instance)
    requires
        call_ensures(Object::instance, (&object, derived), r),
    ensures
        r.position.x == object.position.x,
        r.position.y == derived.center_y,
        r.position.z == object.position.z,
        r.scale.x == object.scale && r.scale.y == object.scale && r.scale.z == object.scale,
        r.color == derived.color,
        r.flags & 1 != 0 <==> object.spin,
        r.flags & 2 != 0 <==> object.selected,
{
    law_flags_tell(object.spin, object.selected);
}

} // verus!
