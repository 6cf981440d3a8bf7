use wind_waker_shader::{
    MigrationWorld, PollSnapshot, SceneStatus, TimeOfDay, Weather, WindWakerShader,
    WindWakerShaderBuilder,
};

fn shader() -> WindWakerShader {
    WindWakerShaderBuilder::default().time_of_day(TimeOfDay::Afternoon).build()
}

fn night_shader() -> WindWakerShader {
    WindWakerShaderBuilder::default()
        .time_of_day(TimeOfDay::Night)
        .weather(Weather::Rainy)
        .build()
}

fn snapshot(resolvable: Vec<u64>, scenes: Vec<SceneStatus>) -> PollSnapshot {
    PollSnapshot { resolvable_materials: resolvable, scenes }
}

#[test]
fn direct_entity_migrates_within_one_poll() {
    let mut world = MigrationWorld::new();
    world.spawn_tagged_renderable(1, 10, shader());
    let events = world.poll(&snapshot(vec![10], vec![]));

    assert_eq!(events.len(), 1);
    assert_eq!(events[0].entity, 1);
    assert_eq!(events[0].base, 10);
    assert_eq!(events[0].extended_material, 0);
    assert_eq!(events[0].extension, shader());

    let entity = &world.entities[0];
    assert_eq!(entity.standard_material, None);
    assert_eq!(entity.extended_material, Some(0));
    assert_eq!(entity.pending, None);
    assert_eq!(world.extended_materials.len(), 1);
    assert_eq!(world.extended_materials[0].base, 10);
    assert_eq!(world.extended_materials[0].extension, shader());
}

#[test]
fn second_poll_does_not_remigrate_or_allocate() {
    let mut world = MigrationWorld::new();
    world.spawn_tagged_renderable(1, 10, shader());
    let first = world.poll(&snapshot(vec![10], vec![]));
    assert_eq!(first.len(), 1);

    let after_first = world.entities[0];
    let second = world.poll(&snapshot(vec![10], vec![]));
    assert_eq!(second.len(), 0);
    assert_eq!(world.extended_materials.len(), 1);
    let after_second = world.entities[0];
    assert_eq!(after_second.standard_material, after_first.standard_material);
    assert_eq!(after_second.extended_material, after_first.extended_material);
    assert_eq!(after_second.pending, after_first.pending);
}

#[test]
fn scene_descendants_migrate_as_they_spawn_and_tag_clears_on_completion() {
    let mut world = MigrationWorld::new();
    world.spawn_scene_root(1, 7, shader());

    // the loader has not started instantiating the scene yet
    let events = world.poll(&snapshot(vec![], vec![]));
    assert_eq!(events.len(), 0);
    assert_eq!(world.entities[0].pending, Some(shader()));

    // two descendants spawn; only one material has loaded so far
    world.spawn_renderable(2, 20);
    world.spawn_renderable(3, 21);
    let partial = snapshot(
        vec![20],
        vec![SceneStatus { scene: 7, ready: false, entities: vec![2, 3] }],
    );
    let events = world.poll(&partial);
    assert_eq!(events.len(), 1);
    assert_eq!(events[0].entity, 2);
    assert_eq!(events[0].extension, shader());
    assert_eq!(world.entities[0].pending, Some(shader()));
    assert_eq!(world.entities[1].extended_material, Some(0));
    assert_eq!(world.entities[2].standard_material, Some(21));

    // instantiation completes: the last descendant migrates and the
    // root's tag goes
    let complete = snapshot(
        vec![20, 21],
        vec![SceneStatus { scene: 7, ready: true, entities: vec![2, 3] }],
    );
    let events = world.poll(&complete);
    assert_eq!(events.len(), 1);
    assert_eq!(events[0].entity, 3);
    assert_eq!(events[0].base, 21);
    assert_eq!(events[0].extension, shader());
    assert_eq!(world.entities[0].pending, None);
    assert_eq!(world.entities[1].extended_material, Some(0));
    assert_eq!(world.entities[2].extended_material, Some(1));
    assert_eq!(world.extended_materials.len(), 2);
    assert_eq!(world.extended_materials[0].base, 20);
    assert_eq!(world.extended_materials[1].base, 21);
    assert_eq!(world.extended_materials[1].extension, shader());

    // a further poll with the same report changes nothing
    let events = world.poll(&complete);
    assert_eq!(events.len(), 0);
    assert_eq!(world.extended_materials.len(), 2);
    assert_eq!(world.entities[0].pending, None);
}

#[test]
fn unresolvable_material_stays_pending_for_a_thousand_polls() {
    let mut world = MigrationWorld::new();
    world.spawn_tagged_renderable(1, 99, shader());
    let tick = snapshot(vec![10, 11, 12], vec![]);
    for _ in 0..1000 {
        let events = world.poll(&tick);
        assert_eq!(events.len(), 0);
    }
    let entity = &world.entities[0];
    assert_eq!(entity.pending, Some(shader()));
    assert_eq!(entity.standard_material, Some(99));
    assert_eq!(entity.extended_material, None);
    assert_eq!(world.extended_materials.len(), 0);
}

#[test]
fn scene_with_unresolvable_materials_keeps_its_tag_until_ready() {
    let mut world = MigrationWorld::new();
    world.spawn_scene_root(1, 7, night_shader());
    world.spawn_renderable(2, 40);
    let stuck = snapshot(
        vec![],
        vec![SceneStatus { scene: 7, ready: false, entities: vec![2] }],
    );
    for _ in 0..50 {
        let events = world.poll(&stuck);
        assert_eq!(events.len(), 0);
    }
    assert_eq!(world.entities[0].pending, Some(night_shader()));
    assert_eq!(world.entities[1].standard_material, Some(40));
}

#[test]
fn direct_and_scene_migrations_combine_in_one_poll() {
    let mut world = MigrationWorld::new();
    world.spawn_scene_root(1, 7, night_shader());
    world.spawn_tagged_renderable(5, 50, shader());
    world.spawn_renderable(2, 20);
    let tick = snapshot(
        vec![50, 20],
        vec![SceneStatus { scene: 7, ready: true, entities: vec![2] }],
    );
    let events = world.poll(&tick);
    assert_eq!(events.len(), 2);
    assert_eq!(world.extended_materials.len(), 2);

    // the scene pass runs first, so the descendant's swap is reported
    // before the directly tagged entity's
    assert_eq!(events[0].entity, 2);
    assert_eq!(events[0].extension, night_shader());
    assert_eq!(events[1].entity, 5);
    assert_eq!(events[1].extension, shader());

    assert_eq!(world.entities[0].pending, None);
    assert_eq!(world.entities[1].pending, None);
    assert_eq!(world.entities[1].extended_material, Some(1));
    assert_eq!(world.entities[2].extended_material, Some(0));
}

#[test]
fn untagged_entities_are_never_touched() {
    let mut world = MigrationWorld::new();
    world.spawn_renderable(2, 20);
    let events = world.poll(&snapshot(vec![20], vec![]));
    assert_eq!(events.len(), 0);
    assert_eq!(world.entities[0].standard_material, Some(20));
    assert_eq!(world.entities[0].extended_material, None);
}

#[test]
fn despawned_entity_drops_out_of_consideration() {
    let mut world = MigrationWorld::new();
    world.spawn_tagged_renderable(1, 99, shader());
    world.spawn_tagged_renderable(2, 10, night_shader());
    assert!(world.despawn(1));
    assert!(!world.despawn(1));
    assert_eq!(world.entities.len(), 1);

    // the remaining entity still migrates as usual
    let events = world.poll(&snapshot(vec![10], vec![]));
    assert_eq!(events.len(), 1);
    assert_eq!(events[0].entity, 2);
    assert_eq!(events[0].extension, night_shader());
}

#[test]
fn finders_locate_entities_and_scene_roots() {
    let mut world = MigrationWorld::new();
    world.spawn_scene_root(1, 7, shader());
    world.spawn_renderable(2, 20);
    assert_eq!(world.find_entity(2), Some(1));
    assert_eq!(world.find_entity(3), None);
    assert_eq!(world.find_scene_root(7), Some(0));
    assert_eq!(world.find_scene_root(8), None);
}
