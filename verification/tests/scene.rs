use gpui3d::engine::{CUBE_INDEX_COUNT, Engine, INITIAL_CAPACITY, Shared, capacity_for};
use gpui3d::frames::BackBuffer;
use gpui3d::instance::{Derived, INSTANCE_SIZE, Instance, Triple, ground, words_of};
use gpui3d::model::{Edit, Effect, INITIAL_CUBES, Inspector, Model, PALETTE_LEN, palette};
use gpui3d::scalar::Scalar;

const PALETTE: [(f32, f32, f32); 6] =
    [(0.0, 0.7, 0.55), (0.08, 0.8, 0.55), (0.14, 0.8, 0.5), (0.36, 0.5, 0.45), (0.58, 0.6, 0.5), (0.78, 0.5, 0.55)];

fn bits(x: f32) -> Scalar {
    Scalar::from_bits(x.to_bits())
}

fn value(x: Scalar) -> f32 {
    f32::from_bits(x.bits)
}

fn triple(x: f32, y: f32, z: f32) -> Triple {
    Triple { x: bits(x), y: bits(y), z: bits(z) }
}

fn add(model: &mut Model) -> Vec<Effect> {
    let (n, ring) = model.next_place();
    let angle = n as f32 * 2.4;
    let radius = 1.8 + ring as f32 * 0.9;
    model.add(triple(radius * angle.cos(), 0.0, radius * angle.sin()))
}

fn shrink(model: &mut Model) -> Vec<Effect> {
    let scale = model.entities[model.selected.unwrap()].scale;
    model.edit(Edit::Shrink(bits(value(scale) - 0.2)))
}

fn grow(model: &mut Model) -> Vec<Effect> {
    let scale = model.entities[model.selected.unwrap()].scale;
    model.edit(Edit::Grow(bits(value(scale) + 0.2)))
}

fn snapshot(model: &Model) -> Vec<Instance> {
    let derived: Vec<Derived> = model
        .listing
        .iter()
        .map(|id| {
            let object = &model.entities[*id];
            let center = value(object.position.y) + value(object.scale) / 2. - 0.5;
            Derived { center_y: bits(center), color: triple(0.1, 0.2, 0.3) }
        })
        .collect();
    model.instances(&derived)
}

#[test]
fn palette_of_the_editor() {
    assert_eq!(PALETTE_LEN, PALETTE.len());
    for (i, (h, s, l)) in PALETTE.iter().enumerate() {
        let color = palette(i);
        let got = (value(color.h), value(color.s), value(color.l), value(color.a));
        assert_eq!(got, (*h, *s, *l, 1.0));
    }
}

#[test]
fn added_cubes_take_turns() {
    let mut model = Model::new();
    for n in 0..INITIAL_CUBES {
        assert_eq!(model.next_place(), (n, n % 5));
        let before = model.selected;
        let effects = add(&mut model);
        let mut want: Vec<Effect> = before.map(Effect::NotifyObject).into_iter().collect();
        want.extend([Effect::NotifyObject(n), Effect::Publish, Effect::NotifyModel]);
        assert_eq!(effects, want);
        let object = &model.entities[n];
        assert_eq!(object.name, format!("Cube {}", n + 1));
        assert_eq!(value(object.color.h), PALETTE[n % 6].0);
        assert_eq!(value(object.scale), 0.6 + (n % 3) as f32 * 0.3);
        assert_eq!(object.spin, n % 2 == 0);
        assert!(object.selected);
        assert_eq!(model.selected, Some(n));
    }
    assert_eq!(model.listing, [0, 1, 2, 3, 4, 5, 6, 7]);
    assert_eq!(model.entities.iter().filter(|o| o.selected).count(), 1);
    assert_eq!(model.heading(), "SCÈNE · 8 objets");
    assert_eq!(model.row_keys(), [0, 1, 2, 3, 4, 5, 6, 7]);
}

#[test]
fn selection_moves_and_clears() {
    let mut model = Model::new();
    add(&mut model);
    add(&mut model);
    let effects = model.select(Some(0));
    assert_eq!(
        effects,
        [Effect::NotifyObject(1), Effect::NotifyObject(0), Effect::Publish, Effect::NotifyModel]
    );
    assert!(model.entities[0].selected && !model.entities[1].selected);
    let again = model.select(Some(0));
    assert_eq!(again.len(), 4);
    assert!(model.entities[0].selected);
    let effects = model.select(None);
    assert_eq!(effects, [Effect::NotifyObject(0), Effect::Publish, Effect::NotifyModel]);
    assert!(!model.entities[0].selected);
}

#[test]
fn removing_selects_the_last_that_is_left() {
    let mut model = Model::new();
    for _ in 0..3 {
        add(&mut model);
    }
    model.select(Some(1));
    let effects = model.remove_selected();
    assert_eq!(effects, [Effect::NotifyObject(2), Effect::Publish, Effect::NotifyModel]);
    assert_eq!(model.listing, [0, 2]);
    assert_eq!(model.selected, Some(2));
    model.remove_selected();
    assert_eq!(model.selected, Some(0));
    let effects = model.remove_selected();
    assert_eq!(effects, [Effect::Publish, Effect::NotifyModel]);
    assert_eq!(model.selected, None);
    assert!(model.listing.is_empty());
    assert!(model.remove_selected().is_empty());
    add(&mut model);
    assert_eq!(model.entities[3].name, "Cube 4");
}

#[test]
fn removing_what_was_added_restores_the_list() {
    let mut model = Model::new();
    for _ in 0..4 {
        add(&mut model);
    }
    let before = model.listing.clone();
    add(&mut model);
    model.remove_selected();
    assert_eq!(model.listing, before);
    assert_eq!(model.selected, Some(3));
}

#[test]
fn edits_touch_the_selected_object_only() {
    let mut model = Model::new();
    assert!(model.edit(Edit::ToggleSpin).is_empty());
    add(&mut model);
    add(&mut model);
    let effects = model.edit(Edit::ToggleSpin);
    assert_eq!(effects, [Effect::NotifyObject(1), Effect::Publish]);
    assert!(model.entities[1].spin && model.entities[0].spin);
    model.edit(Edit::ToggleSpin);
    assert!(!model.entities[1].spin);
    model.edit(Edit::Color(palette(4)));
    assert_eq!(model.entities[1].color, palette(4));
    assert_eq!(model.entities[0].color, palette(0));
}

#[test]
fn scale_stays_between_its_ends() {
    let mut model = Model::new();
    add(&mut model);
    grow(&mut model);
    assert_eq!(value(model.entities[0].scale), 0.6 + 0.2);
    for _ in 0..30 {
        grow(&mut model);
    }
    assert_eq!(value(model.entities[0].scale), 3.0);
    for _ in 0..30 {
        shrink(&mut model);
    }
    assert_eq!(value(model.entities[0].scale), 0.2);
    for step in 0..40 {
        if step % 3 == 0 {
            shrink(&mut model);
        } else {
            grow(&mut model);
        }
        assert!((0.2..=3.0).contains(&value(model.entities[0].scale)));
    }
    assert_eq!(model.entities[0].name, "Cube 1");
}

#[test]
fn inspector_shows_the_selected_object() {
    let mut model = Model::new();
    assert!(matches!(model.inspector(), Inspector::Empty));
    add(&mut model);
    add(&mut model);
    match model.inspector() {
        Inspector::Object { name, swatches, spin_label } => {
            assert_eq!(name, "Cube 2");
            assert_eq!(swatches, [false, true, false, false, false, false]);
            assert_eq!(spin_label, "arrêtée");
        }
        Inspector::Empty => panic!("an object is selected"),
    }
    model.edit(Edit::ToggleSpin);
    match model.inspector() {
        Inspector::Object { spin_label, .. } => assert_eq!(spin_label, "activée"),
        Inspector::Empty => panic!("an object is selected"),
    }
}

#[test]
fn instances_carry_flags_and_stand_on_the_ground() {
    let mut model = Model::new();
    for _ in 0..3 {
        add(&mut model);
    }
    let instances = snapshot(&model);
    let flags: Vec<u32> = instances.iter().map(|i| i.flags).collect();
    assert_eq!(flags, [1, 0, 3]);
    assert_eq!(value(instances[0].position.y), 0.0 + 0.6f32 / 2. - 0.5);
    assert_eq!(instances[1].position.x, model.entities[1].position.x);
    assert_eq!(instances[1].scale.y, model.entities[1].scale);
}

#[test]
fn capacities_are_powers_of_two() {
    for n in 0..200usize {
        assert_eq!(capacity_for(n), n.next_power_of_two());
    }
    assert_eq!(capacity_for(4097), 8192);
}

#[test]
fn scene_goes_to_the_gpu_only_when_it_has_changed() {
    let mut shared = Shared::new();
    let mut engine = Engine::new();
    assert_eq!(engine.buffer_size, (INITIAL_CAPACITY * INSTANCE_SIZE) as u64);
    assert!(engine.begin_frame(&shared, BackBuffer::Missing).is_none());

    let plan = engine.begin_frame(&shared, BackBuffer::Ready(800, 600)).unwrap();
    let upload = plan.upload.unwrap();
    let want: Vec<u8> = words_of(&vec![ground()]).iter().flat_map(|w| w.to_ne_bytes()).collect();
    assert_eq!(upload.bytes, want);
    assert_eq!(upload.grow_to, None);
    assert_eq!((plan.resize, plan.width, plan.height), (true, 800, 600));
    assert_eq!((plan.index_count, plan.instance_count), (CUBE_INDEX_COUNT, 1));

    let plan = engine.begin_frame(&shared, BackBuffer::Ready(800, 600)).unwrap();
    assert!(plan.upload.is_none() && !plan.resize);
    assert_eq!(plan.instance_count, 1);

    let mut model = Model::new();
    for _ in 0..3 {
        add(&mut model);
    }
    let instances = snapshot(&model);
    shared.publish(instances.clone());
    assert_eq!(shared.version, 1);
    let plan = engine.begin_frame(&shared, BackBuffer::Ready(801, 600)).unwrap();
    let mut all = vec![ground()];
    all.extend(instances);
    let want: Vec<u8> = words_of(&all).iter().flat_map(|w| w.to_ne_bytes()).collect();
    assert_eq!(plan.upload.unwrap().bytes, want);
    assert_eq!((plan.resize, plan.instance_count), (true, 4));
}

#[test]
fn published_model_is_what_the_engine_draws() {
    let mut model = Model::new();
    add(&mut model);
    add(&mut model);
    let derived = vec![Derived { center_y: bits(0.5), color: triple(0.1, 0.2, 0.3) }; 2];
    let mut shared = Shared::new();
    model.publish(&derived, &mut shared);
    assert_eq!(shared.scene, model.instances(&derived));
    assert_eq!(shared.version, 1);

    let mut engine = Engine::new();
    let copy = shared.snapshot(engine.uploaded);
    assert_eq!((&copy.scene, copy.version), (&shared.scene, 1));
    let plan = engine.begin_frame(&copy, BackBuffer::Ready(4, 4)).unwrap();
    assert_eq!(plan.instance_count, 3);
    let copy = shared.snapshot(engine.uploaded);
    assert!(copy.scene.is_empty());
    let plan = engine.begin_frame(&copy, BackBuffer::Ready(4, 4)).unwrap();
    assert!(plan.upload.is_none());
    assert_eq!(plan.instance_count, 3);
}

#[test]
fn shared_state_counts_published_frames() {
    let mut shared = Shared::new();
    for published in [true, false, true, true, false] {
        shared.count(published);
    }
    assert_eq!((shared.frames, shared.version), (3, 0));
}

#[test]
fn buffer_grows_to_a_power_of_two() {
    let mut shared = Shared::new();
    let mut engine = Engine::new();
    shared.publish(vec![ground(); 63]);
    let plan = engine.begin_frame(&shared, BackBuffer::Ready(1, 1)).unwrap();
    assert_eq!(plan.upload.unwrap().grow_to, None);
    shared.publish(vec![ground(); 64]);
    let plan = engine.begin_frame(&shared, BackBuffer::Ready(1, 1)).unwrap();
    assert_eq!(plan.upload.unwrap().grow_to, Some(128 * 40));
    assert_eq!(engine.buffer_size, 128 * 40);
    assert_eq!(plan.instance_count, 65);
    shared.publish(Vec::new());
    let plan = engine.begin_frame(&shared, BackBuffer::Ready(1, 1)).unwrap();
    assert_eq!(plan.upload.unwrap().grow_to, None);
    assert_eq!((engine.buffer_size, plan.instance_count), (128 * 40, 1));
}
