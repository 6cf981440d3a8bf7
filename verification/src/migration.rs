//! The deferred material-migration driver.
//!
//! Entities enter the world carrying a pending-migration tag: either a
//! directly renderable entity whose standard material is to be replaced, or
//! the root of an externally loaded scene whose descendants are to be
//! migrated as the loader spawns them. Once per tick the driver is polled
//! with a snapshot of the host's asset and loader state; it swaps each
//! affected entity's standard material for a freshly allocated extended
//! material carrying the tag's configuration, exactly once per entity, and
//! leaves entities whose assets have not loaded yet untouched, to be tried
//! again on a later poll.

use vstd::prelude::*;
use crate::components::WindWakerShader;

verus! {

/// One entity of the host scene graph, as the migration driver models it.
#[derive(Clone, Copy, Debug)]
pub struct EntityRecord {
    /// The host's identifier for the entity; unique within a world.
    pub id: u64,
    /// The handle of the standard material the entity still renders with,
    /// if it has not been migrated.
    pub standard_material: Option<u64>,
    /// The handle of the extended material the entity renders with once it
    /// has been migrated: an index into the world's extended material
    /// store.
    pub extended_material: Option<usize>,
    /// The pending-migration tag, carrying the configuration to apply.
    pub pending: Option<WindWakerShader>,
    /// The scene instance rooted at this entity, if it is a scene root.
    pub scene: Option<u64>,
}

impl EntityRecord {
    /// A tagged scene root: it waits for its scene's descendants rather
    /// than for a material of its own.
    pub open spec fn is_tagged_scene_owner(self) -> bool {
        self.pending.is_some() && self.scene.is_some()
    }

    /// A tagged, directly renderable entity: its own material is to be
    /// replaced.
    pub open spec fn is_tagged_direct(self) -> bool {
        self.pending.is_some() && self.scene.is_none()
    }
}

/// An extended material held by the store: a base standard material plus
/// the toon configuration layered on top of it.
#[derive(Clone, Copy, Debug)]
pub struct ExtendedMaterialRecord {
    /// The standard material this extended material was built from.
    pub base: u64,
    /// The toon configuration applied on top of the base.
    pub extension: WindWakerShader,
}

/// What the loader reports about one scene instance at a given poll.
#[derive(Clone, Debug)]
pub struct SceneStatus {
    /// The scene instance this entry describes.
    pub scene: u64,
    /// Whether the loader has finished instantiating the scene.
    pub ready: bool,
    /// The entities the loader has spawned for the scene so far; a scene
    /// may spawn them over several polls.
    pub entities: Vec<u64>,
}

/// A read-only snapshot of the host's asset and loader state, taken at the
/// start of a poll: which standard materials have loaded data, and how far
/// each scene instantiation has come.
#[derive(Clone, Debug)]
pub struct PollSnapshot {
    /// The standard-material handles whose data is present in the host's
    /// asset store this tick.
    pub resolvable_materials: Vec<u64>,
    /// The loader's report on each live scene instance.
    pub scenes: Vec<SceneStatus>,
}

impl PollSnapshot {
    /// Whether the host's asset store holds data for the given standard
    /// material this tick.
    pub open spec fn resolves(self, handle: u64) -> bool {
        self.resolvable_materials@.contains(handle)
    }

    /// Whether the loader reports on the given scene instance.
    pub open spec fn has_scene(self, scene: u64) -> bool {
        exists|s: int| 0 <= s < self.scenes@.len() && #[trigger] self.scenes@[s].scene == scene
    }

    /// The position of the loader's report on the given scene instance.
    pub open spec fn scene_at(self, scene: u64) -> int {
        choose|s: int| 0 <= s < self.scenes@.len() && #[trigger] self.scenes@[s].scene == scene
    }

    /// Whether the loader reports the given scene instance fully
    /// instantiated.
    pub open spec fn scene_ready(self, scene: u64) -> bool {
        self.has_scene(scene) && self.scenes@[self.scene_at(scene)].ready
    }

    /// Whether the loader lists `entity` among the entities it has spawned
    /// so far for `scene`.
    pub open spec fn scene_lists(self, scene: u64, entity: u64) -> bool {
        self.has_scene(scene) && self.scenes@[self.scene_at(scene)].entities@.contains(entity)
    }

    /// A well-formed snapshot reports each scene instance at most once and
    /// never attributes one spawned entity to two scene instances.
    pub open spec fn wf(self) -> bool {
        &&& forall|s: int, t: int|
            #![trigger self.scenes@[s].scene, self.scenes@[t].scene]
            0 <= s < self.scenes@.len() && 0 <= t < self.scenes@.len() && s != t
                ==> self.scenes@[s].scene != self.scenes@[t].scene
        &&& forall|s: int, t: int, e: u64|
            #![trigger self.scenes@[s].entities@.contains(e), self.scenes@[t].entities@.contains(e)]
            0 <= s < self.scenes@.len() && 0 <= t < self.scenes@.len() && s != t
                && self.scenes@[s].entities@.contains(e)
                ==> !self.scenes@[t].entities@.contains(e)
    }
}

/// In a well-formed snapshot, a scene found at position `s` is the scene
/// that `scene_at` speaks of.
pub proof fn lemma_scene_at(snapshot: PollSnapshot, s: int)
    requires
        snapshot.wf(),
        0 <= s < snapshot.scenes@.len(),
    ensures
        snapshot.has_scene(snapshot.scenes@[s].scene),
        snapshot.scene_at(snapshot.scenes@[s].scene) == s,
{
    let scene = snapshot.scenes@[s].scene;
    assert(snapshot.has_scene(scene));
    let t = snapshot.scene_at(scene);
    assert(0 <= t < snapshot.scenes@.len() && snapshot.scenes@[t].scene == scene);
}

/// One material swap performed by a poll.
#[derive(Clone, Copy, Debug)]
pub struct MigrationEvent {
    /// The entity whose material was swapped.
    pub entity: u64,
    /// The standard material it rendered with until this poll.
    pub base: u64,
    /// The newly allocated extended-material handle it renders with now.
    pub extended_material: usize,
    /// The configuration the new material carries.
    pub extension: WindWakerShader,
}

/// The migration driver's model of the scene graph: the entities it tracks
/// and the extended materials it has allocated so far. A handle of an
/// extended material is its position in the store.
#[derive(Clone, Debug)]
pub struct MigrationWorld {
    /// The tracked entities.
    pub entities: Vec<EntityRecord>,
    /// The extended materials allocated by earlier polls.
    pub extended_materials: Vec<ExtendedMaterialRecord>,
}

impl MigrationWorld {
    /// A well-formed world: entity identifiers are unique, two scene roots
    /// never share a scene instance, no entity renders with both a
    /// standard and an extended material at once, and every
    /// extended-material handle points into the store.
    pub open spec fn wf(self) -> bool {
        &&& forall|i: int, j: int|
            #![trigger self.entities@[i].id, self.entities@[j].id]
            0 <= i < self.entities@.len() && 0 <= j < self.entities@.len() && i != j
                ==> self.entities@[i].id != self.entities@[j].id
        &&& unique_scenes(self.entities@)
        &&& forall|i: int|
            0 <= i < self.entities@.len()
                ==> !(#[trigger] self.entities@[i].standard_material.is_some()
                    && self.entities@[i].extended_material.is_some())
        &&& forall|i: int|
            0 <= i < self.entities@.len() && #[trigger] self.entities@[i].extended_material.is_some()
                ==> self.entities@[i].extended_material.unwrap() < self.extended_materials@.len()
    }

    /// An empty world: no entities tracked, no extended materials
    /// allocated.
    pub fn new() -> (world: Self)
        ensures
            world.entities@.len() == 0,
            world.extended_materials@.len() == 0,
            world.wf(),
    {
        MigrationWorld { entities: Vec::new(), extended_materials: Vec::new() }
    }

    /// The position of the entity with the given identifier, if the world
    /// tracks it.
    pub fn find_entity(&self, id: u64) -> (position: Option<usize>)
        ensures
            match position {
                Some(j) => j < self.entities@.len() && self.entities@[j as int].id == id,
                None => forall|m: int|
                    0 <= m < self.entities@.len() ==> #[trigger] self.entities@[m].id != id,
            },
    {
        let mut k: usize = 0;
        while k < self.entities.len()
            invariant
                k <= self.entities@.len(),
                forall|m: int| 0 <= m < k ==> #[trigger] self.entities@[m].id != id,
            decreases self.entities@.len() - k,
        {
            if self.entities[k].id == id {
                return Some(k);
            }
            k += 1;
        }
        None
    }

    /// Starts tracking an untagged renderable entity, for instance one the
    /// loader has just spawned for a scene instance. The identifier must be
    /// new to the world.
    pub fn spawn_renderable(&mut self, id: u64, standard_material: u64)
        requires
            old(self).wf(),
            forall|m: int|
                0 <= m < old(self).entities@.len() ==> #[trigger] old(self).entities@[m].id != id,
        ensures
            final(self).wf(),
            final(self).entities@ == old(self).entities@.push(
                (EntityRecord {
                    id,
                    standard_material: Some(standard_material),
                    extended_material: None,
                    pending: None,
                    scene: None,
                }),
            ),
            final(self).extended_materials@ == old(self).extended_materials@,
    {
        self.entities.push(
            EntityRecord {
                id,
                standard_material: Some(standard_material),
                extended_material: None,
                pending: None,
                scene: None,
            },
        );
    }

    /// Starts tracking a directly renderable entity tagged for migration:
    /// its standard material is to be replaced by an extended material
    /// carrying the given configuration. The identifier must be new to the
    /// world.
    pub fn spawn_tagged_renderable(
        &mut self,
        id: u64,
        standard_material: u64,
        shader: WindWakerShader,
    )
        requires
            old(self).wf(),
            forall|m: int|
                0 <= m < old(self).entities@.len() ==> #[trigger] old(self).entities@[m].id != id,
        ensures
            final(self).wf(),
            final(self).entities@ == old(self).entities@.push(
                (EntityRecord {
                    id,
                    standard_material: Some(standard_material),
                    extended_material: None,
                    pending: Some(shader),
                    scene: None,
                }),
            ),
            final(self).extended_materials@ == old(self).extended_materials@,
    {
        self.entities.push(
            EntityRecord {
                id,
                standard_material: Some(standard_material),
                extended_material: None,
                pending: Some(shader),
                scene: None,
            },
        );
    }

    /// Starts tracking a tagged scene root: the given configuration is to
    /// be propagated to every renderable the loader spawns for the scene.
    /// Both the entity identifier and the scene instance must be new to the
    /// world.
    pub fn spawn_scene_root(&mut self, id: u64, scene: u64, shader: WindWakerShader)
        requires
            old(self).wf(),
            forall|m: int|
                0 <= m < old(self).entities@.len() ==> #[trigger] old(self).entities@[m].id != id,
            forall|m: int|
                0 <= m < old(self).entities@.len()
                    ==> #[trigger] old(self).entities@[m].scene != Some(scene),
        ensures
            final(self).wf(),
            final(self).entities@ == old(self).entities@.push(
                (EntityRecord {
                    id,
                    standard_material: None,
                    extended_material: None,
                    pending: Some(shader),
                    scene: Some(scene),
                }),
            ),
            final(self).extended_materials@ == old(self).extended_materials@,
    {
        self.entities.push(
            EntityRecord {
                id,
                standard_material: None,
                extended_material: None,
                pending: Some(shader),
                scene: Some(scene),
            },
        );
    }
}

/// Whether the tagged scene root at position `j` claims the entity `e`
/// this poll: the loader lists `e` among the entities spawned so far for
/// the scene rooted at `j`.
pub open spec fn listed_by_owner(
    entities: Seq<EntityRecord>,
    snapshot: PollSnapshot,
    j: int,
    e: EntityRecord,
) -> bool {
    &&& 0 <= j < entities.len()
    &&& entities[j].is_tagged_scene_owner()
    &&& snapshot.scene_lists(entities[j].scene.unwrap(), e.id)
}

/// Whether some tagged scene root claims the entity `e` this poll.
pub open spec fn scene_claimed(
    entities: Seq<EntityRecord>,
    snapshot: PollSnapshot,
    e: EntityRecord,
) -> bool {
    exists|j: int| #[trigger] listed_by_owner(entities, snapshot, j, e)
}

/// Whether the entity at position `i` is migrated by this poll: it still
/// renders with a standard material whose data is loaded this tick, and
/// either a tagged scene root claims it or it is itself tagged as a
/// directly renderable entity.
pub open spec fn migrates(entities: Seq<EntityRecord>, snapshot: PollSnapshot, i: int) -> bool
    recommends
        0 <= i < entities.len(),
{
    &&& entities[i].standard_material.is_some()
    &&& snapshot.resolves(entities[i].standard_material.unwrap())
    &&& (scene_claimed(entities, snapshot, entities[i]) || entities[i].is_tagged_direct())
}

/// The scene half of [`migrates`]: a tagged scene root claims the entity
/// and its standard material resolves.
pub open spec fn scene_migrates(entities: Seq<EntityRecord>, snapshot: PollSnapshot, i: int) -> bool
    recommends
        0 <= i < entities.len(),
{
    &&& entities[i].standard_material.is_some()
    &&& snapshot.resolves(entities[i].standard_material.unwrap())
    &&& scene_claimed(entities, snapshot, entities[i])
}

/// The direct half of [`migrates`]: the entity is tagged and resolvable,
/// and no scene root claims it first.
pub open spec fn direct_migrates(entities: Seq<EntityRecord>, snapshot: PollSnapshot, i: int) -> bool
    recommends
        0 <= i < entities.len(),
{
    &&& entities[i].is_tagged_direct()
    &&& entities[i].standard_material.is_some()
    &&& snapshot.resolves(entities[i].standard_material.unwrap())
    &&& !scene_claimed(entities, snapshot, entities[i])
}

/// The position of the tagged scene root that claims the entity `e` this
/// poll. With a well-formed world and snapshot there is at most one such
/// root.
pub open spec fn claiming_owner(
    entities: Seq<EntityRecord>,
    snapshot: PollSnapshot,
    e: EntityRecord,
) -> int {
    choose|j: int| #[trigger] listed_by_owner(entities, snapshot, j, e)
}

/// The configuration that scene migration propagates to the entity `e`:
/// the tag carried by the scene root that claims it.
pub open spec fn propagated_extension(
    entities: Seq<EntityRecord>,
    snapshot: PollSnapshot,
    e: EntityRecord,
) -> WindWakerShader {
    entities[claiming_owner(entities, snapshot, e)].pending.unwrap()
}

/// Whether one of the first `bound` entities is a tagged scene root that
/// claims the entity `e` this poll.
pub open spec fn scene_claimed_upto(
    entities: Seq<EntityRecord>,
    snapshot: PollSnapshot,
    e: EntityRecord,
    bound: int,
) -> bool {
    exists|j: int| j < bound && #[trigger] listed_by_owner(entities, snapshot, j, e)
}

/// Whether `id` occurs among the first `count` elements of `list`.
pub open spec fn prefix_lists(list: Seq<u64>, count: int, id: u64) -> bool {
    exists|k: int| 0 <= k < count && list[k] == id
}

/// Two distinct scene roots never share a scene instance.
pub open spec fn unique_scenes(entities: Seq<EntityRecord>) -> bool {
    forall|i: int, j: int|
        #![trigger entities[i].scene, entities[j].scene]
        0 <= i < entities.len() && 0 <= j < entities.len() && i != j && entities[i].scene.is_some()
            ==> entities[i].scene != entities[j].scene
}

/// In a world whose scene roots are distinct, under a well-formed
/// snapshot, at most one tagged scene root claims any given entity, so the
/// configuration propagated to it is the claiming root's tag.
pub proof fn lemma_owner_unique(
    entities: Seq<EntityRecord>,
    snapshot: PollSnapshot,
    j: int,
    e: EntityRecord,
)
    requires
        unique_scenes(entities),
        snapshot.wf(),
        listed_by_owner(entities, snapshot, j, e),
    ensures
        claiming_owner(entities, snapshot, e) == j,
        propagated_extension(entities, snapshot, e) == entities[j].pending.unwrap(),
{
    let j2 = claiming_owner(entities, snapshot, e);
    assert(listed_by_owner(entities, snapshot, j2, e));
    if j2 != j {
        let s1 = entities[j].scene.unwrap();
        let s2 = entities[j2].scene.unwrap();
        assert(entities[j].scene != entities[j2].scene);
        let t1 = snapshot.scene_at(s1);
        let t2 = snapshot.scene_at(s2);
        assert(snapshot.scenes@[t1].entities@.contains(e.id));
        assert(snapshot.scenes@[t2].entities@.contains(e.id));
        assert(t1 != t2);
    }
}

/// The configuration carried by the extended material that the entity at
/// position `i` receives when it is migrated: the one propagated from the
/// claiming scene root if there is one, else the entity's own tag.
pub open spec fn migrated_extension(
    entities: Seq<EntityRecord>,
    snapshot: PollSnapshot,
    i: int,
) -> WindWakerShader
    recommends
        0 <= i < entities.len(),
{
    if scene_claimed(entities, snapshot, entities[i]) {
        propagated_extension(entities, snapshot, entities[i])
    } else {
        entities[i].pending.unwrap()
    }
}

/// The pending tag on the entity at position `i` after a poll: a scene
/// root's tag goes as soon as the loader reports its scene fully
/// instantiated, a directly renderable entity's tag goes together with its
/// material swap, and every other tag stays for a later poll.
pub open spec fn pending_after(
    entities: Seq<EntityRecord>,
    snapshot: PollSnapshot,
    i: int,
) -> Option<WindWakerShader>
    recommends
        0 <= i < entities.len(),
{
    let e = entities[i];
    if e.is_tagged_scene_owner() && snapshot.scene_ready(e.scene.unwrap()) {
        None
    } else if direct_migrates(entities, snapshot, i) {
        None
    } else {
        e.pending
    }
}

/// Whether `handles` contains `handle`.
fn contains_handle(handles: &Vec<u64>, handle: u64) -> (found: bool)
    ensures
        found == handles@.contains(handle),
{
    let mut k: usize = 0;
    while k < handles.len()
        invariant
            k <= handles@.len(),
            forall|m: int| 0 <= m < k ==> handles@[m] != handle,
        decreases handles@.len() - k,
    {
        if handles[k] == handle {
            return true;
        }
        k += 1;
    }
    false
}

/// The position of the loader's report on the given scene instance, if the
/// snapshot has one.
fn find_scene(snapshot: &PollSnapshot, scene: u64) -> (position: Option<usize>)
    ensures
        match position {
            Some(s) => s < snapshot.scenes@.len() && snapshot.scenes@[s as int].scene == scene,
            None => !snapshot.has_scene(scene),
        },
{
    let mut k: usize = 0;
    while k < snapshot.scenes.len()
        invariant
            k <= snapshot.scenes@.len(),
            forall|m: int| 0 <= m < k ==> #[trigger] snapshot.scenes@[m].scene != scene,
        decreases snapshot.scenes@.len() - k,
    {
        if snapshot.scenes[k].scene == scene {
            return Some(k);
        }
        k += 1;
    }
    None
}

impl MigrationWorld {
    /// Migrates every tagged, directly renderable entity whose standard
    /// material resolves this tick: the entity gets a freshly allocated
    /// extended material over its old base, loses its standard material
    /// and its tag, and the swap is recorded in `events`. Entities whose
    /// material does not resolve yet are left untouched, to be tried again
    /// on a later poll.
    #[verifier::rlimit(60)]
    fn customize_standard_materials(
        &mut self,
        snapshot: &PollSnapshot,
        events: &mut Vec<MigrationEvent>,
    )
        requires
            old(self).wf(),
        ensures
            final(self).wf(),
            final(self).entities@.len() == old(self).entities@.len(),
            forall|i: int|
                #![trigger final(self).entities@[i]]
                0 <= i < old(self).entities@.len() ==> {
                    let e = old(self).entities@[i];
                    let f = final(self).entities@[i];
                    &&& f.id == e.id
                    &&& f.scene == e.scene
                    &&& if e.is_tagged_direct() && e.standard_material.is_some()
                        && snapshot.resolves(e.standard_material.unwrap()) {
                        &&& f.pending.is_none()
                        &&& f.standard_material.is_none()
                        &&& f.extended_material.is_some()
                        &&& old(self).extended_materials@.len() <= f.extended_material.unwrap()
                            < final(self).extended_materials@.len()
                        &&& final(self).extended_materials@[f.extended_material.unwrap() as int].base
                            == e.standard_material.unwrap()
                        &&& final(self).extended_materials@[f.extended_material.unwrap() as int].extension
                            == e.pending.unwrap()
                        &&& final(events)@[old(events)@.len() + (f.extended_material.unwrap()
                            - old(self).extended_materials@.len())] == (MigrationEvent {
                            entity: e.id,
                            base: e.standard_material.unwrap(),
                            extended_material: f.extended_material.unwrap(),
                            extension: e.pending.unwrap(),
                        })
                    } else {
                        &&& f.pending == e.pending
                        &&& f.standard_material == e.standard_material
                        &&& f.extended_material == e.extended_material
                    }
                },
            final(self).extended_materials@.len() == old(self).extended_materials@.len() + (
            final(events)@.len() - old(events)@.len()),
            old(events)@.len() <= final(events)@.len(),
            forall|k: int|
                0 <= k < old(self).extended_materials@.len()
                    ==> final(self).extended_materials@[k] == old(self).extended_materials@[k],
            forall|k: int| 0 <= k < old(events)@.len() ==> final(events)@[k] == old(events)@[k],
            (forall|i: int|
                #![trigger old(self).entities@[i]]
                0 <= i < old(self).entities@.len()
                    ==> !(old(self).entities@[i].is_tagged_direct()
                        && old(self).entities@[i].standard_material.is_some()
                        && snapshot.resolves(old(self).entities@[i].standard_material.unwrap())))
                ==> final(events)@.len() == old(events)@.len(),
    {
        let ghost oev = old(events)@.len() as int;
        let ghost osl = old(self).extended_materials@.len() as int;
        let ghost mut owners: Seq<int> = Seq::empty();
        let mut a: usize = 0;
        while a < self.entities.len()
            invariant
                self.wf(),
                self.entities@.len() == old(self).entities@.len(),
                a <= self.entities@.len(),
                oev == old(events)@.len(),
                osl == old(self).extended_materials@.len(),
                oev <= events@.len(),
                owners.len() == events@.len() - oev,
                self.extended_materials@.len() == osl + owners.len(),
                forall|k: int| 0 <= k < osl ==> self.extended_materials@[k] == old(self).extended_materials@[k],
                forall|k: int| 0 <= k < oev ==> events@[k] == old(events)@[k],
                forall|i: int|
                    a <= i < self.entities@.len() ==> #[trigger] self.entities@[i] == old(self).entities@[i],
                forall|i: int|
                    #![trigger self.entities@[i]]
                    0 <= i < a ==> {
                        let e = old(self).entities@[i];
                        let f = self.entities@[i];
                        &&& f.id == e.id
                        &&& f.scene == e.scene
                        &&& if e.is_tagged_direct() && e.standard_material.is_some()
                            && snapshot.resolves(e.standard_material.unwrap()) {
                            &&& f.pending.is_none()
                            &&& f.standard_material.is_none()
                            &&& f.extended_material.is_some()
                            &&& osl <= f.extended_material.unwrap() < self.extended_materials@.len()
                            &&& self.extended_materials@[f.extended_material.unwrap() as int].base
                                == e.standard_material.unwrap()
                            &&& self.extended_materials@[f.extended_material.unwrap() as int].extension
                                == e.pending.unwrap()
                            &&& events@[oev + (f.extended_material.unwrap() - osl)]
                                == (MigrationEvent {
                                entity: e.id,
                                base: e.standard_material.unwrap(),
                                extended_material: f.extended_material.unwrap(),
                                extension: e.pending.unwrap(),
                            })
                        } else {
                            &&& f.pending == e.pending
                            &&& f.standard_material == e.standard_material
                            &&& f.extended_material == e.extended_material
                        }
                    },
                forall|k: int|
                    #![trigger owners[k]]
                    0 <= k < owners.len() ==> {
                        let i = owners[k];
                        let e = old(self).entities@[i];
                        &&& 0 <= i < a
                        &&& e.is_tagged_direct()
                        &&& e.standard_material.is_some()
                        &&& snapshot.resolves(e.standard_material.unwrap())
                        &&& events@[oev + k].entity == e.id
                        &&& events@[oev + k].base == e.standard_material.unwrap()
                        &&& events@[oev + k].extension == e.pending.unwrap()
                        &&& events@[oev + k].extended_material == osl + k
                        &&& self.entities@[i].extended_material == Some(((osl + k) as usize))
                    },
            decreases self.entities@.len() - a,
        {
            let e = self.entities[a];
            if e.pending.is_some() && e.scene.is_none() && e.standard_material.is_some() {
                let base = e.standard_material.unwrap();
                if contains_handle(&snapshot.resolvable_materials, base) {
                    let handle = self.extended_materials.len();
                    let extension = e.pending.unwrap();
                    self.extended_materials.push(ExtendedMaterialRecord { base, extension });
                    let mut migrated = e;
                    migrated.pending = None;
                    migrated.standard_material = None;
                    migrated.extended_material = Some(handle);
                    self.entities.set(a, migrated);
                    events.push(
                        MigrationEvent { entity: e.id, base, extended_material: handle, extension },
                    );
                    proof {
                        owners = owners.push(a as int);
                    }
                }
            }
            a += 1;
        }
        proof {
            if events@.len() != oev {
                let i0 = owners[0];
                assert(0 <= i0 < old(self).entities@.len() && old(
                    self,
                ).entities@[i0].is_tagged_direct() && old(
                    self,
                ).entities@[i0].standard_material.is_some() && snapshot.resolves(
                    old(self).entities@[i0].standard_material.unwrap(),
                ));
            }
        }
    }
}

impl MigrationWorld {
    /// Migrates every tracked entity that the loader lists for the scene
    /// report at position `s` and that still renders with a standard
    /// material whose data resolves this tick: each gets a freshly
    /// allocated extended material carrying `shader` over its old base.
    /// Tags are untouched; already-migrated entities and entities whose
    /// material does not resolve yet are skipped.
    #[verifier::rlimit(60)]
    fn migrate_listed(
        &mut self,
        snapshot: &PollSnapshot,
        s: usize,
        shader: WindWakerShader,
        events: &mut Vec<MigrationEvent>,
    )
        requires
            old(self).wf(),
            s < snapshot.scenes@.len(),
        ensures
            final(self).wf(),
            final(self).entities@.len() == old(self).entities@.len(),
            forall|i: int|
                #![trigger final(self).entities@[i]]
                0 <= i < old(self).entities@.len() ==> {
                    let e = old(self).entities@[i];
                    let f = final(self).entities@[i];
                    &&& f.id == e.id
                    &&& f.scene == e.scene
                    &&& f.pending == e.pending
                    &&& if e.standard_material.is_some() && snapshot.resolves(
                        e.standard_material.unwrap(),
                    ) && snapshot.scenes@[s as int].entities@.contains(e.id) {
                        &&& f.standard_material.is_none()
                        &&& f.extended_material.is_some()
                        &&& old(self).extended_materials@.len() <= f.extended_material.unwrap()
                            < final(self).extended_materials@.len()
                        &&& final(self).extended_materials@[f.extended_material.unwrap() as int]
                            == (ExtendedMaterialRecord {
                            base: e.standard_material.unwrap(),
                            extension: shader,
                        })
                        &&& final(events)@[old(events)@.len() + (f.extended_material.unwrap()
                            - old(self).extended_materials@.len())] == (MigrationEvent {
                            entity: e.id,
                            base: e.standard_material.unwrap(),
                            extended_material: f.extended_material.unwrap(),
                            extension: shader,
                        })
                    } else {
                        &&& f.standard_material == e.standard_material
                        &&& f.extended_material == e.extended_material
                    }
                },
            final(self).extended_materials@.len() == old(self).extended_materials@.len() + (
            final(events)@.len() - old(events)@.len()),
            old(events)@.len() <= final(events)@.len(),
            forall|k: int|
                0 <= k < old(self).extended_materials@.len()
                    ==> final(self).extended_materials@[k] == old(self).extended_materials@[k],
            forall|k: int| 0 <= k < old(events)@.len() ==> final(events)@[k] == old(events)@[k],
            (forall|i: int|
                #![trigger old(self).entities@[i]]
                0 <= i < old(self).entities@.len()
                    ==> !(old(self).entities@[i].standard_material.is_some()
                        && snapshot.resolves(old(self).entities@[i].standard_material.unwrap())
                        && snapshot.scenes@[s as int].entities@.contains(
                        old(self).entities@[i].id,
                    ))) ==> final(events)@.len() == old(events)@.len(),
    {
        let ghost oev = old(events)@.len() as int;
        let ghost osl = old(self).extended_materials@.len() as int;
        let ghost list = snapshot.scenes@[s as int].entities@;
        let ghost mut sources: Seq<int> = Seq::empty();
        let count = snapshot.scenes[s].entities.len();
        let mut d: usize = 0;
        while d < count
            invariant
                self.wf(),
                self.entities@.len() == old(self).entities@.len(),
                s < snapshot.scenes@.len(),
                count == snapshot.scenes@[s as int].entities@.len(),
                list == snapshot.scenes@[s as int].entities@,
                d <= count,
                oev == old(events)@.len(),
                osl == old(self).extended_materials@.len(),
                oev <= events@.len(),
                sources.len() == events@.len() - oev,
                self.extended_materials@.len() == osl + sources.len(),
                forall|k: int|
                    0 <= k < osl ==> self.extended_materials@[k] == old(
                        self,
                    ).extended_materials@[k],
                forall|k: int| 0 <= k < oev ==> events@[k] == old(events)@[k],
                forall|i: int|
                    #![trigger self.entities@[i]]
                    0 <= i < self.entities@.len() ==> {
                        let e = old(self).entities@[i];
                        let f = self.entities@[i];
                        &&& f.id == e.id
                        &&& f.scene == e.scene
                        &&& f.pending == e.pending
                        &&& if e.standard_material.is_some() && snapshot.resolves(
                            e.standard_material.unwrap(),
                        ) && prefix_lists(list, d as int, e.id) {
                            &&& f.standard_material.is_none()
                            &&& f.extended_material.is_some()
                            &&& osl <= f.extended_material.unwrap()
                                < self.extended_materials@.len()
                            &&& self.extended_materials@[f.extended_material.unwrap() as int]
                                == (ExtendedMaterialRecord {
                                base: e.standard_material.unwrap(),
                                extension: shader,
                            })
                            &&& events@[oev + (f.extended_material.unwrap() - osl)]
                                == (MigrationEvent {
                                entity: e.id,
                                base: e.standard_material.unwrap(),
                                extended_material: f.extended_material.unwrap(),
                                extension: shader,
                            })
                        } else {
                            &&& f.standard_material == e.standard_material
                            &&& f.extended_material == e.extended_material
                        }
                    },
                forall|k: int|
                    #![trigger sources[k]]
                    0 <= k < sources.len() ==> {
                        let i = sources[k];
                        let e = old(self).entities@[i];
                        &&& 0 <= i < old(self).entities@.len()
                        &&& e.standard_material.is_some()
                        &&& snapshot.resolves(e.standard_material.unwrap())
                        &&& snapshot.scenes@[s as int].entities@.contains(e.id)
                    },
            decreases count - d,
        {
            let listed = snapshot.scenes[s].entities[d];
            let found = self.find_entity(listed);
            let ghost pre_entities = self.entities@;
            match found {
                Some(j) => {
                    let target = self.entities[j];
                    if target.standard_material.is_some() {
                        let base = target.standard_material.unwrap();
                        if contains_handle(&snapshot.resolvable_materials, base) {
                            let handle = self.extended_materials.len();
                            self.extended_materials.push(
                                ExtendedMaterialRecord { base, extension: shader },
                            );
                            let mut migrated = target;
                            migrated.standard_material = None;
                            migrated.extended_material = Some(handle);
                            self.entities.set(j, migrated);
                            events.push(
                                MigrationEvent {
                                    entity: target.id,
                                    base,
                                    extended_material: handle,
                                    extension: shader,
                                },
                            );
                            proof {
                                sources = sources.push(j as int);
                                assert(list[d as int] == old(self).entities@[j as int].id);
                                assert(snapshot.scenes@[s as int].entities@.contains(
                                    old(self).entities@[j as int].id,
                                ));
                            }
                        }
                    }
                    proof {
                        assert forall|i: int|
                            0 <= i < self.entities@.len() && prefix_lists(
                                list,
                                d + 1,
                                old(self).entities@[i].id,
                            ) && !prefix_lists(list, d as int, old(self).entities@[i].id) implies i
                            == j by {
                            assert(list[d as int] == old(self).entities@[i].id);
                            assert(pre_entities[i].id == old(self).entities@[i].id);
                        }
                    }
                }
                None => {
                    proof {
                        assert forall|i: int|
                            0 <= i < self.entities@.len() implies !(prefix_lists(
                            list,
                            d + 1,
                            old(self).entities@[i].id,
                        ) && !prefix_lists(list, d as int, old(self).entities@[i].id)) by {
                            if prefix_lists(list, d + 1, old(self).entities@[i].id)
                                && !prefix_lists(list, d as int, old(self).entities@[i].id) {
                                assert(list[d as int] == old(self).entities@[i].id);
                                assert(self.entities@[i].id == old(self).entities@[i].id);
                            }
                        }
                    }
                }
            }
            d += 1;
        }
        proof {
            assert forall|i: int|
                0 <= i < self.entities@.len() implies (prefix_lists(
                list,
                count as int,
                old(self).entities@[i].id,
            ) == snapshot.scenes@[s as int].entities@.contains(old(self).entities@[i].id)) by {
                if snapshot.scenes@[s as int].entities@.contains(old(self).entities@[i].id) {
                    let k = choose|k: int|
                        0 <= k < list.len() && list[k] == old(self).entities@[i].id;
                    assert(list[k] == old(self).entities@[i].id);
                }
            }
            if events@.len() != oev {
                let i0 = sources[0];
                assert(0 <= i0 < old(self).entities@.len() && old(
                    self,
                ).entities@[i0].standard_material.is_some() && snapshot.resolves(
                    old(self).entities@[i0].standard_material.unwrap(),
                ) && snapshot.scenes@[s as int].entities@.contains(old(self).entities@[i0].id));
            }
        }
    }
}

impl MigrationWorld {
    /// Walks every tagged scene root: removes its tag as soon as the
    /// loader reports the scene fully instantiated, and — whether or not
    /// the scene is complete yet — migrates every entity the loader has
    /// spawned for it so far whose standard material resolves this tick,
    /// propagating the root's configuration to each. Already-migrated
    /// entities are skipped, so revisiting a scene on a later poll never
    /// allocates twice.
    #[verifier::rlimit(100)]
    fn customize_scene_materials(
        &mut self,
        snapshot: &PollSnapshot,
        events: &mut Vec<MigrationEvent>,
    )
        requires
            old(self).wf(),
            snapshot.wf(),
        ensures
            final(self).wf(),
            final(self).entities@.len() == old(self).entities@.len(),
            forall|i: int|
                #![trigger final(self).entities@[i]]
                0 <= i < old(self).entities@.len() ==> {
                    let e = old(self).entities@[i];
                    let f = final(self).entities@[i];
                    &&& f.id == e.id
                    &&& f.scene == e.scene
                    &&& f.pending == (if e.is_tagged_scene_owner() && snapshot.scene_ready(
                        e.scene.unwrap(),
                    ) {
                        None
                    } else {
                        e.pending
                    })
                    &&& if scene_migrates(old(self).entities@, *snapshot, i) {
                        &&& f.standard_material.is_none()
                        &&& f.extended_material.is_some()
                        &&& old(self).extended_materials@.len() <= f.extended_material.unwrap()
                            < final(self).extended_materials@.len()
                        &&& final(self).extended_materials@[f.extended_material.unwrap() as int]
                            == (ExtendedMaterialRecord {
                            base: e.standard_material.unwrap(),
                            extension: propagated_extension(old(self).entities@, *snapshot, e),
                        })
                        &&& final(events)@[old(events)@.len() + (f.extended_material.unwrap()
                            - old(self).extended_materials@.len())] == (MigrationEvent {
                            entity: e.id,
                            base: e.standard_material.unwrap(),
                            extended_material: f.extended_material.unwrap(),
                            extension: propagated_extension(old(self).entities@, *snapshot, e),
                        })
                    } else {
                        &&& f.standard_material == e.standard_material
                        &&& f.extended_material == e.extended_material
                    }
                },
            final(self).extended_materials@.len() == old(self).extended_materials@.len() + (
            final(events)@.len() - old(events)@.len()),
            old(events)@.len() <= final(events)@.len(),
            forall|k: int|
                0 <= k < old(self).extended_materials@.len()
                    ==> final(self).extended_materials@[k] == old(self).extended_materials@[k],
            forall|k: int| 0 <= k < old(events)@.len() ==> final(events)@[k] == old(events)@[k],
            (forall|i: int|
                0 <= i < old(self).entities@.len() ==> !scene_migrates(
                    old(self).entities@,
                    *snapshot,
                    i,
                )) ==> final(events)@.len() == old(events)@.len(),
    {
        let ghost oev = old(events)@.len() as int;
        let ghost osl = old(self).extended_materials@.len() as int;
        let mut a: usize = 0;
        while a < self.entities.len()
            invariant
                self.wf(),
                snapshot.wf(),
                old(self).wf(),
                self.entities@.len() == old(self).entities@.len(),
                a <= self.entities@.len(),
                oev == old(events)@.len(),
                osl == old(self).extended_materials@.len(),
                oev <= events@.len(),
                self.extended_materials@.len() == osl + (events@.len() - oev),
                forall|k: int|
                    0 <= k < osl ==> self.extended_materials@[k] == old(
                        self,
                    ).extended_materials@[k],
                forall|k: int| 0 <= k < oev ==> events@[k] == old(events)@[k],
                forall|i: int|
                    #![trigger self.entities@[i]]
                    0 <= i < self.entities@.len() ==> {
                        let e = old(self).entities@[i];
                        let f = self.entities@[i];
                        &&& f.id == e.id
                        &&& f.scene == e.scene
                        &&& f.pending == (if e.is_tagged_scene_owner() && i < a
                            && snapshot.scene_ready(e.scene.unwrap()) {
                            None
                        } else {
                            e.pending
                        })
                        &&& if e.standard_material.is_some() && snapshot.resolves(
                            e.standard_material.unwrap(),
                        ) && scene_claimed_upto(old(self).entities@, *snapshot, e, a as int) {
                            &&& f.standard_material.is_none()
                            &&& f.extended_material.is_some()
                            &&& osl <= f.extended_material.unwrap()
                                < self.extended_materials@.len()
                            &&& self.extended_materials@[f.extended_material.unwrap() as int]
                                == (ExtendedMaterialRecord {
                                base: e.standard_material.unwrap(),
                                extension: propagated_extension(
                                    old(self).entities@,
                                    *snapshot,
                                    e,
                                ),
                            })
                            &&& events@[oev + (f.extended_material.unwrap() - osl)]
                                == (MigrationEvent {
                                entity: e.id,
                                base: e.standard_material.unwrap(),
                                extended_material: f.extended_material.unwrap(),
                                extension: propagated_extension(
                                    old(self).entities@,
                                    *snapshot,
                                    e,
                                ),
                            })
                        } else {
                            &&& f.standard_material == e.standard_material
                            &&& f.extended_material == e.extended_material
                        }
                    },
                (forall|i: int|
                    0 <= i < old(self).entities@.len() ==> !scene_migrates(
                        old(self).entities@,
                        *snapshot,
                        i,
                    )) ==> events@.len() == oev,
            decreases self.entities@.len() - a,
        {
            let e = self.entities[a];
            if e.pending.is_some() && e.scene.is_some() {
                let scene_id = e.scene.unwrap();
                let found = find_scene(snapshot, scene_id);
                match found {
                    Some(s) => {
                        proof {
                            lemma_scene_at(*snapshot, s as int);
                        }
                        if snapshot.scenes[s].ready {
                            let mut cleared = self.entities[a];
                            cleared.pending = None;
                            self.entities.set(a, cleared);
                        }
                        let ghost mid = *self;
                        let ghost midev = events@;
                        let shader = e.pending.unwrap();
                        self.migrate_listed(snapshot, s, shader, events);
                        proof {
                            let oe = old(self).entities@;
                            let list = snapshot.scenes@[s as int].entities@;
                            assert forall|i: int|
                                #![trigger self.entities@[i]]
                                0 <= i < self.entities@.len() implies {
                                let en = oe[i];
                                let f = self.entities@[i];
                                &&& f.id == en.id
                                &&& f.scene == en.scene
                                &&& f.pending == (if en.is_tagged_scene_owner() && i < a + 1
                                    && snapshot.scene_ready(en.scene.unwrap()) {
                                    None
                                } else {
                                    en.pending
                                })
                                &&& if en.standard_material.is_some() && snapshot.resolves(
                                    en.standard_material.unwrap(),
                                ) && scene_claimed_upto(oe, *snapshot, en, a + 1) {
                                    &&& f.standard_material.is_none()
                                    &&& f.extended_material.is_some()
                                    &&& osl <= f.extended_material.unwrap()
                                        < self.extended_materials@.len()
                                    &&& self.extended_materials@[f.extended_material.unwrap() as int]
                                        == (ExtendedMaterialRecord {
                                        base: en.standard_material.unwrap(),
                                        extension: propagated_extension(oe, *snapshot, en),
                                    })
                                    &&& events@[oev + (f.extended_material.unwrap() - osl)]
                                        == (MigrationEvent {
                                        entity: en.id,
                                        base: en.standard_material.unwrap(),
                                        extended_material: f.extended_material.unwrap(),
                                        extension: propagated_extension(oe, *snapshot, en),
                                    })
                                } else {
                                    &&& f.standard_material == en.standard_material
                                    &&& f.extended_material == en.extended_material
                                }
                            } by {
                                let en = oe[i];
                                let f = self.entities@[i];
                                assert(mid.entities@[i].id == en.id);
                                if en.standard_material.is_some() && snapshot.resolves(
                                    en.standard_material.unwrap(),
                                ) && scene_claimed_upto(oe, *snapshot, en, a as int) {
                                    // migrated before this owner's turn; the helper
                                    // skipped it and every store entry it points at
                                    // survived
                                    assert(mid.entities@[i].standard_material.is_none());
                                    assert(f == mid.entities@[i]);
                                    assert(scene_claimed_upto(oe, *snapshot, en, a + 1));
                                } else if en.standard_material.is_some() && snapshot.resolves(
                                    en.standard_material.unwrap(),
                                ) && list.contains(en.id) {
                                    // the helper migrated it on this owner's behalf
                                    assert(mid.entities@[i].standard_material
                                        == en.standard_material);
                                    assert(listed_by_owner(oe, *snapshot, a as int, en));
                                    lemma_owner_unique(oe, *snapshot, a as int, en);
                                    assert(scene_claimed_upto(oe, *snapshot, en, a + 1));
                                } else {
                                    // untouched: neither an earlier owner nor this one
                                    // claims it with a resolvable material
                                    if en.standard_material.is_some() && snapshot.resolves(
                                        en.standard_material.unwrap(),
                                    ) && scene_claimed_upto(oe, *snapshot, en, a + 1) {
                                        let j = choose|j: int|
                                            j < a + 1 && #[trigger] listed_by_owner(
                                                oe,
                                                *snapshot,
                                                j,
                                                en,
                                            );
                                        assert(listed_by_owner(oe, *snapshot, j, en));
                                        if j == a {
                                            assert(list.contains(en.id));
                                        }
                                        assert(false);
                                    }
                                    assert(mid.entities@[i].standard_material
                                        == en.standard_material);
                                    assert(f.standard_material == en.standard_material);
                                }
                            }
                            if (forall|i: int|
                                0 <= i < oe.len() ==> !scene_migrates(oe, *snapshot, i)) {
                                assert forall|i: int|
                                    #![trigger mid.entities@[i]]
                                    0 <= i < mid.entities@.len() implies !(
                                mid.entities@[i].standard_material.is_some()
                                    && snapshot.resolves(
                                    mid.entities@[i].standard_material.unwrap(),
                                ) && list.contains(mid.entities@[i].id)) by {
                                    if mid.entities@[i].standard_material.is_some()
                                        && snapshot.resolves(
                                        mid.entities@[i].standard_material.unwrap(),
                                    ) && list.contains(mid.entities@[i].id) {
                                        assert(mid.entities@[i].standard_material
                                            == oe[i].standard_material);
                                        assert(listed_by_owner(oe, *snapshot, a as int, oe[i]));
                                        assert(scene_migrates(oe, *snapshot, i));
                                    }
                                }
                                assert(events@.len() == midev.len());
                                assert(events@.len() == oev);
                            }
                        }
                    }
                    None => {
                        proof {
                            let oe = old(self).entities@;
                            assert forall|i: int|
                                0 <= i < oe.len() implies (scene_claimed_upto(
                                oe,
                                *snapshot,
                                oe[i],
                                a + 1,
                            ) == scene_claimed_upto(oe, *snapshot, oe[i], a as int)) by {
                                if scene_claimed_upto(oe, *snapshot, oe[i], a + 1) {
                                    let j = choose|j: int|
                                        j < a + 1 && #[trigger] listed_by_owner(
                                            oe,
                                            *snapshot,
                                            j,
                                            oe[i],
                                        );
                                    assert(listed_by_owner(oe, *snapshot, j, oe[i]));
                                    if j == a {
                                        assert(snapshot.has_scene(oe[a as int].scene.unwrap()));
                                        assert(false);
                                    }
                                }
                            }
                        }
                    }
                }
            } else {
                proof {
                    let oe = old(self).entities@;
                    assert forall|i: int|
                        0 <= i < oe.len() implies (scene_claimed_upto(oe, *snapshot, oe[i], a + 1)
                        == scene_claimed_upto(oe, *snapshot, oe[i], a as int)) by {
                        if scene_claimed_upto(oe, *snapshot, oe[i], a + 1) {
                            let j = choose|j: int|
                                j < a + 1 && #[trigger] listed_by_owner(oe, *snapshot, j, oe[i]);
                            assert(listed_by_owner(oe, *snapshot, j, oe[i]));
                            if j == a {
                                assert(oe[a as int].is_tagged_scene_owner());
                                assert(false);
                            }
                        }
                    }
                }
            }
            a += 1;
        }
        proof {
            let oe = old(self).entities@;
            assert forall|i: int|
                0 <= i < oe.len() implies (scene_claimed_upto(oe, *snapshot, oe[i], oe.len() as int)
                == scene_claimed(oe, *snapshot, oe[i])) by {
                if scene_claimed(oe, *snapshot, oe[i]) {
                    let j = choose|j: int| #[trigger] listed_by_owner(oe, *snapshot, j, oe[i]);
                    assert(listed_by_owner(oe, *snapshot, j, oe[i]));
                    assert(j < oe.len());
                }
                if scene_claimed_upto(oe, *snapshot, oe[i], oe.len() as int) {
                    let j = choose|j: int|
                        j < oe.len() && #[trigger] listed_by_owner(oe, *snapshot, j, oe[i]);
                    assert(listed_by_owner(oe, *snapshot, j, oe[i]));
                }
            }
        }
    }
}

/// Everything one poll guarantees, as a relation between the world before
/// (`w0`), the snapshot the poll saw, the world after (`w1`), and the
/// events the poll returned: entity identities and scene references
/// survive; each tag is kept or removed exactly as [`pending_after`] says;
/// an entity is migrated — its standard material swapped for a fresh
/// extended material carrying [`migrated_extension`], with a matching
/// event — precisely when [`migrates`] holds of it, and is otherwise left
/// untouched; the store grows by exactly one record per event and keeps
/// every earlier record; and a poll that can migrate nothing returns no
/// events at all.
pub open spec fn poll_step(
    w0: MigrationWorld,
    snapshot: PollSnapshot,
    w1: MigrationWorld,
    events: Seq<MigrationEvent>,
) -> bool {
    &&& w1.entities@.len() == w0.entities@.len()
    &&& forall|i: int|
        #![trigger w1.entities@[i]]
        0 <= i < w0.entities@.len() ==> {
            let e = w0.entities@[i];
            let f = w1.entities@[i];
            &&& f.id == e.id
            &&& f.scene == e.scene
            &&& f.pending == pending_after(w0.entities@, snapshot, i)
            &&& if migrates(w0.entities@, snapshot, i) {
                &&& f.standard_material.is_none()
                &&& f.extended_material.is_some()
                &&& w0.extended_materials@.len() <= f.extended_material.unwrap()
                    < w1.extended_materials@.len()
                &&& w1.extended_materials@[f.extended_material.unwrap() as int]
                    == (ExtendedMaterialRecord {
                    base: e.standard_material.unwrap(),
                    extension: migrated_extension(w0.entities@, snapshot, i),
                })
                &&& events[f.extended_material.unwrap() - w0.extended_materials@.len()]
                    == (MigrationEvent {
                    entity: e.id,
                    base: e.standard_material.unwrap(),
                    extended_material: f.extended_material.unwrap(),
                    extension: migrated_extension(w0.entities@, snapshot, i),
                })
            } else {
                &&& f.standard_material == e.standard_material
                &&& f.extended_material == e.extended_material
            }
        }
    &&& w1.extended_materials@.len() == w0.extended_materials@.len() + events.len()
    &&& forall|k: int|
        0 <= k < w0.extended_materials@.len() ==> w1.extended_materials@[k]
            == w0.extended_materials@[k]
    &&& ((forall|i: int| 0 <= i < w0.entities@.len() ==> !migrates(w0.entities@, snapshot, i))
        ==> events.len() == 0)
}

impl MigrationWorld {
    /// One tick of the migration driver. Given a snapshot of the host's
    /// asset and loader state, performs every migration that is legal this
    /// tick — scene roots propagate their configuration to the entities
    /// the loader has spawned for them, directly tagged entities migrate
    /// on their own — swapping each affected entity's standard material
    /// for a freshly allocated extended material, exactly once per entity.
    /// A tagged scene root loses its tag as soon as the loader reports its
    /// scene fully instantiated; a directly tagged entity loses its tag
    /// together with its material swap; every other entity waits,
    /// untouched, for a later poll. Returns one event per material swap,
    /// in allocation order; when nothing is migratable, no event comes
    /// back and the store does not grow.
    #[verifier::rlimit(100)]
    pub fn poll(&mut self, snapshot: &PollSnapshot) -> (events: Vec<MigrationEvent>)
        requires
            old(self).wf(),
            snapshot.wf(),
        ensures
            final(self).wf(),
            poll_step(*old(self), *snapshot, *final(self), events@),
    {
        let mut events: Vec<MigrationEvent> = Vec::new();
        self.customize_scene_materials(snapshot, &mut events);
        let ghost mid = *self;
        let ghost midev = events@;
        self.customize_standard_materials(snapshot, &mut events);
        proof {
            let oe = old(self).entities@;
            let osl = old(self).extended_materials@.len() as int;
            assert forall|i: int|
                #![trigger self.entities@[i]]
                0 <= i < oe.len() implies {
                let e = oe[i];
                let f = self.entities@[i];
                &&& f.id == e.id
                &&& f.scene == e.scene
                &&& f.pending == pending_after(oe, *snapshot, i)
                &&& if migrates(oe, *snapshot, i) {
                    &&& f.standard_material.is_none()
                    &&& f.extended_material.is_some()
                    &&& osl <= f.extended_material.unwrap() < self.extended_materials@.len()
                    &&& self.extended_materials@[f.extended_material.unwrap() as int]
                        == (ExtendedMaterialRecord {
                        base: e.standard_material.unwrap(),
                        extension: migrated_extension(oe, *snapshot, i),
                    })
                    &&& events@[f.extended_material.unwrap() - osl] == (MigrationEvent {
                        entity: e.id,
                        base: e.standard_material.unwrap(),
                        extended_material: f.extended_material.unwrap(),
                        extension: migrated_extension(oe, *snapshot, i),
                    })
                } else {
                    &&& f.standard_material == e.standard_material
                    &&& f.extended_material == e.extended_material
                }
            } by {
                let e = oe[i];
                let m = mid.entities@[i];
                let f = self.entities@[i];
                if scene_migrates(oe, *snapshot, i) {
                    // the scene pass migrated it; the direct pass skipped it
                    assert(m.standard_material.is_none());
                    assert(f == m);
                } else if e.standard_material.is_some() && snapshot.resolves(
                    e.standard_material.unwrap(),
                ) && e.is_tagged_direct() {
                    // untouched by the scene pass, migrated by the direct pass
                    assert(m.standard_material == e.standard_material);
                    assert(m.pending == e.pending);
                    assert(!scene_claimed(oe, *snapshot, e));
                } else {
                    // not migratable this poll: both passes leave its
                    // materials alone
                    assert(m.standard_material == e.standard_material);
                    assert(m.extended_material == e.extended_material);
                    if m.is_tagged_direct() && m.standard_material.is_some()
                        && snapshot.resolves(m.standard_material.unwrap()) {
                        assert(m.pending == e.pending && m.scene == e.scene);
                        assert(false);
                    }
                    assert(f.standard_material == e.standard_material);
                }
            }
            if (forall|i: int| 0 <= i < oe.len() ==> !migrates(oe, *snapshot, i)) {
                assert forall|i: int|
                    0 <= i < oe.len() implies !scene_migrates(oe, *snapshot, i) by {
                    assert(scene_migrates(oe, *snapshot, i) ==> migrates(oe, *snapshot, i));
                }
                assert(midev.len() == 0);
                assert forall|i: int|
                    #![trigger mid.entities@[i]]
                    0 <= i < mid.entities@.len() implies !(mid.entities@[i].is_tagged_direct()
                    && mid.entities@[i].standard_material.is_some() && snapshot.resolves(
                    mid.entities@[i].standard_material.unwrap(),
                )) by {
                    if mid.entities@[i].is_tagged_direct()
                        && mid.entities@[i].standard_material.is_some() && snapshot.resolves(
                        mid.entities@[i].standard_material.unwrap(),
                    ) {
                        assert(!scene_migrates(oe, *snapshot, i));
                        assert(mid.entities@[i].standard_material == oe[i].standard_material);
                        assert(mid.entities@[i].pending == oe[i].pending);
                        assert(migrates(oe, *snapshot, i));
                        assert(false);
                    }
                }
            }
            assert(poll_step(*old(self), *snapshot, *self, events@));
        }
        events
    }
}

impl MigrationWorld {
    /// The position of the tagged or untagged root of the given scene
    /// instance, if the world tracks one.
    pub fn find_scene_root(&self, scene: u64) -> (position: Option<usize>)
        ensures
            match position {
                Some(j) => j < self.entities@.len() && self.entities@[j as int].scene == Some(
                    scene,
                ),
                None => forall|m: int|
                    0 <= m < self.entities@.len() ==> #[trigger] self.entities@[m].scene != Some(
                        scene,
                    ),
            },
    {
        let mut k: usize = 0;
        while k < self.entities.len()
            invariant
                k <= self.entities@.len(),
                forall|m: int| 0 <= m < k ==> #[trigger] self.entities@[m].scene != Some(scene),
            decreases self.entities@.len() - k,
        {
            let is_root = match self.entities[k].scene {
                Some(s) => s == scene,
                None => false,
            };
            if is_root {
                return Some(k);
            }
            k += 1;
        }
        None
    }
}

impl MigrationWorld {
    /// Stops tracking the entity with the given identifier, mirroring a
    /// host that despawned it: the entity simply drops out of
    /// consideration, and any pending tag dies with it. Returns whether
    /// the world was tracking it. The extended-material store is not
    /// touched.
    pub fn despawn(&mut self, id: u64) -> (removed: bool)
        requires
            old(self).wf(),
        ensures
            final(self).wf(),
            final(self).extended_materials@ == old(self).extended_materials@,
            match old(self).find_entity_spec(id) {
                Some(j) => removed && final(self).entities@ == old(self).entities@.remove(j as int),
                None => !removed && final(self).entities@ == old(self).entities@,
            },
    {
        let found = self.find_entity(id);
        match found {
            Some(j) => {
                proof {
                    assert(self.find_entity_spec(id) == Some(j as int)) by {
                        let r = choose|r: int|
                            0 <= r < self.entities@.len() && #[trigger] self.entities@[r].id == id;
                        assert(self.entities@[j as int].id == id);
                        assert(r == j);
                    }
                }
                self.entities.remove(j);
                proof {
                    let oe = old(self).entities@;
                    let ne = self.entities@;
                    assert forall|x: int, y: int|
                        #![trigger ne[x].id, ne[y].id]
                        0 <= x < ne.len() && 0 <= y < ne.len() && x != y implies ne[x].id
                        != ne[y].id by {
                        let ox = if x < j { x } else { x + 1 };
                        let oy = if y < j { y } else { y + 1 };
                        assert(ne[x] == oe[ox] && ne[y] == oe[oy]);
                    }
                    assert forall|x: int, y: int|
                        #![trigger ne[x].scene, ne[y].scene]
                        0 <= x < ne.len() && 0 <= y < ne.len() && x != y && ne[x].scene.is_some()
                        implies ne[x].scene != ne[y].scene by {
                        let ox = if x < j { x } else { x + 1 };
                        let oy = if y < j { y } else { y + 1 };
                        assert(ne[x] == oe[ox] && ne[y] == oe[oy]);
                    }
                    assert forall|x: int| 0 <= x < ne.len() implies !(
                    #[trigger] ne[x].standard_material.is_some() && ne[x].extended_material.is_some())
                        && (ne[x].extended_material.is_some() ==> ne[x].extended_material.unwrap()
                        < self.extended_materials@.len()) by {
                        let ox = if x < j { x } else { x + 1 };
                        assert(ne[x] == oe[ox]);
                    }
                }
                true
            }
            None => {
                proof {
                    if self.find_entity_spec(id).is_some() {
                        let r = choose|r: int|
                            0 <= r < self.entities@.len() && #[trigger] self.entities@[r].id == id;
                        assert(self.entities@[r].id == id);
                    }
                }
                false
            }
        }
    }

    /// The position of the entity with the given identifier, if the world
    /// tracks one.
    pub open spec fn find_entity_spec(self, id: u64) -> Option<int> {
        if exists|r: int| 0 <= r < self.entities@.len() && #[trigger] self.entities@[r].id == id {
            Some(
                choose|r: int|
                    0 <= r < self.entities@.len() && #[trigger] self.entities@[r].id == id,
            )
        } else {
            None
        }
    }
}

/// Whether one poll can turn `w0` into `w1` under `snapshot`, whatever
/// events it reports.
pub open spec fn poll_transition(
    w0: MigrationWorld,
    snapshot: PollSnapshot,
    w1: MigrationWorld,
) -> bool {
    exists|events: Seq<MigrationEvent>| poll_step(w0, snapshot, w1, events)
}

/// A tagged, directly renderable entity that no scene root claims and
/// whose standard material resolves is migrated within the very poll that
/// sees it and loses its tag with the swap; after that it can never
/// satisfy the migration condition again, and a second poll leaves it
/// exactly as the first one left it — in particular it accounts for no
/// further store allocation.
pub proof fn lemma_direct_migration_idempotent(
    w0: MigrationWorld,
    snap1: PollSnapshot,
    w1: MigrationWorld,
    ev1: Seq<MigrationEvent>,
    snap2: PollSnapshot,
    w2: MigrationWorld,
    ev2: Seq<MigrationEvent>,
    i: int,
)
    requires
        poll_step(w0, snap1, w1, ev1),
        poll_step(w1, snap2, w2, ev2),
        0 <= i < w0.entities@.len(),
        w0.entities@[i].is_tagged_direct(),
        w0.entities@[i].standard_material.is_some(),
        snap1.resolves(w0.entities@[i].standard_material.unwrap()),
        !scene_claimed(w0.entities@, snap1, w0.entities@[i]),
    ensures
        w1.entities@[i].standard_material.is_none(),
        w1.entities@[i].extended_material.is_some(),
        w1.entities@[i].pending.is_none(),
        w1.extended_materials@[w1.entities@[i].extended_material.unwrap() as int]
            == (ExtendedMaterialRecord {
            base: w0.entities@[i].standard_material.unwrap(),
            extension: w0.entities@[i].pending.unwrap(),
        }),
        !migrates(w1.entities@, snap2, i),
        w2.entities@[i] == w1.entities@[i],
{
    assert(migrates(w0.entities@, snap1, i));
    assert(direct_migrates(w0.entities@, snap1, i));
    assert(w1.entities@[i].pending == pending_after(w0.entities@, snap1, i));
    assert(migrated_extension(w0.entities@, snap1, i) == w0.entities@[i].pending.unwrap());
    assert(!migrates(w1.entities@, snap2, i));
    assert(w2.entities@[i].pending == pending_after(w1.entities@, snap2, i));
    assert(!w1.entities@[i].is_tagged_scene_owner());
    assert(!direct_migrates(w1.entities@, snap2, i));
    assert(w2.entities@[i].standard_material == w1.entities@[i].standard_material);
    assert(w2.entities@[i].extended_material == w1.entities@[i].extended_material);
    assert(w2.entities@[i].id == w1.entities@[i].id);
    assert(w2.entities@[i].scene == w1.entities@[i].scene);
    assert(w2.entities@[i].pending == w1.entities@[i].pending);
}

/// When the loader reports a tagged root's scene fully instantiated, the
/// poll that sees it removes the root's tag; and every entity the loader
/// lists for that scene whose standard material resolves is migrated by
/// that same poll, receiving an extended material that carries the root's
/// configuration — the same value for every listed entity — over its own
/// base material.
pub proof fn lemma_scene_completion(
    w0: MigrationWorld,
    snapshot: PollSnapshot,
    w1: MigrationWorld,
    ev: Seq<MigrationEvent>,
    o: int,
    d: int,
)
    requires
        w0.wf(),
        snapshot.wf(),
        poll_step(w0, snapshot, w1, ev),
        0 <= o < w0.entities@.len(),
        w0.entities@[o].is_tagged_scene_owner(),
        snapshot.scene_ready(w0.entities@[o].scene.unwrap()),
        0 <= d < w0.entities@.len(),
        snapshot.scene_lists(w0.entities@[o].scene.unwrap(), w0.entities@[d].id),
        w0.entities@[d].standard_material.is_some(),
        snapshot.resolves(w0.entities@[d].standard_material.unwrap()),
    ensures
        w1.entities@[o].pending.is_none(),
        w1.entities@[d].standard_material.is_none(),
        w1.entities@[d].extended_material.is_some(),
        w1.extended_materials@[w1.entities@[d].extended_material.unwrap() as int]
            == (ExtendedMaterialRecord {
            base: w0.entities@[d].standard_material.unwrap(),
            extension: w0.entities@[o].pending.unwrap(),
        }),
{
    assert(listed_by_owner(w0.entities@, snapshot, o, w0.entities@[d]));
    assert(scene_claimed(w0.entities@, snapshot, w0.entities@[d]));
    assert(migrates(w0.entities@, snapshot, d));
    lemma_owner_unique(w0.entities@, snapshot, o, w0.entities@[d]);
    assert(migrated_extension(w0.entities@, snapshot, d) == w0.entities@[o].pending.unwrap());
    assert(w1.entities@[o].pending == pending_after(w0.entities@, snapshot, o));
}

/// A tag, once removed, never comes back: a poll never re-tags an entity
/// whose pending tag is gone.
pub proof fn lemma_cleared_tag_stays_cleared(
    w0: MigrationWorld,
    snapshot: PollSnapshot,
    w1: MigrationWorld,
    ev: Seq<MigrationEvent>,
    i: int,
)
    requires
        poll_step(w0, snapshot, w1, ev),
        0 <= i < w0.entities@.len(),
        w0.entities@[i].pending.is_none(),
    ensures
        w1.entities@[i].pending.is_none(),
{
    assert(w1.entities@[i].pending == pending_after(w0.entities@, snapshot, i));
}

/// A tagged, directly renderable entity whose standard material does not
/// resolve this tick is left completely untouched by the poll: still
/// tagged, still rendering with the same standard material, however the
/// rest of the world moves on.
pub proof fn lemma_unresolvable_stays_pending(
    w0: MigrationWorld,
    snapshot: PollSnapshot,
    w1: MigrationWorld,
    ev: Seq<MigrationEvent>,
    i: int,
)
    requires
        poll_step(w0, snapshot, w1, ev),
        0 <= i < w0.entities@.len(),
        w0.entities@[i].pending.is_some(),
        w0.entities@[i].scene.is_none(),
        w0.entities@[i].standard_material.is_some(),
        !snapshot.resolves(w0.entities@[i].standard_material.unwrap()),
    ensures
        w1.entities@[i] == w0.entities@[i],
{
    assert(!migrates(w0.entities@, snapshot, i));
    assert(w1.entities@[i].pending == pending_after(w0.entities@, snapshot, i));
    assert(!w0.entities@[i].is_tagged_scene_owner());
    assert(!direct_migrates(w0.entities@, snapshot, i));
    assert(w1.entities@[i].standard_material == w0.entities@[i].standard_material);
    assert(w1.entities@[i].extended_material == w0.entities@[i].extended_material);
    assert(w1.entities@[i].id == w0.entities@[i].id);
    assert(w1.entities@[i].scene == w0.entities@[i].scene);
}

/// However many polls pass, while no snapshot resolves the standard
/// material a tagged, directly renderable entity is waiting for, the
/// entity stays pending and unchanged: there is no timeout and no error
/// channel, "not yet ready" is the only meaning of an unresolved asset.
pub proof fn lemma_stays_pending_across_polls(
    worlds: Seq<MigrationWorld>,
    snapshots: Seq<PollSnapshot>,
    i: int,
)
    requires
        worlds.len() >= 1,
        snapshots.len() == worlds.len() - 1,
        forall|k: int|
            #![trigger snapshots[k]]
            0 <= k < snapshots.len() ==> poll_transition(worlds[k], snapshots[k], worlds[k + 1]),
        0 <= i < worlds[0].entities@.len(),
        worlds[0].entities@[i].pending.is_some(),
        worlds[0].entities@[i].scene.is_none(),
        worlds[0].entities@[i].standard_material.is_some(),
        forall|k: int|
            #![trigger snapshots[k]]
            0 <= k < snapshots.len() ==> !snapshots[k].resolves(
                worlds[0].entities@[i].standard_material.unwrap(),
            ),
    ensures
        worlds[worlds.len() - 1].entities@[i] == worlds[0].entities@[i],
    decreases worlds.len(),
{
    if worlds.len() > 1 {
        assert(poll_transition(worlds[0], snapshots[0], worlds[1]));
        let ev = choose|events: Seq<MigrationEvent>|
            poll_step(worlds[0], snapshots[0], worlds[1], events);
        lemma_unresolvable_stays_pending(worlds[0], snapshots[0], worlds[1], ev, i);
        let tail_worlds = worlds.subrange(1, worlds.len() as int);
        let tail_snapshots = snapshots.subrange(1, snapshots.len() as int);
        assert forall|k: int|
            #![trigger tail_snapshots[k]]
            0 <= k < tail_snapshots.len() implies poll_transition(
            tail_worlds[k],
            tail_snapshots[k],
            tail_worlds[k + 1],
        ) && !tail_snapshots[k].resolves(
            tail_worlds[0].entities@[i].standard_material.unwrap(),
        ) by {
            assert(snapshots[k + 1] == tail_snapshots[k]);
            assert(poll_transition(worlds[k + 1], snapshots[k + 1], worlds[k + 2]));
            assert(tail_worlds[k] == worlds[k + 1]);
            assert(tail_worlds[k + 1] == worlds[k + 2]);
            assert(!snapshots[k + 1].resolves(
                worlds[0].entities@[i].standard_material.unwrap(),
            ));
            assert(tail_worlds[0].entities@[i].standard_material
                == worlds[0].entities@[i].standard_material);
        }
        lemma_stays_pending_across_polls(tail_worlds, tail_snapshots, i);
        assert(tail_worlds[tail_worlds.len() - 1] == worlds[worlds.len() - 1]);
    }
}

} // verus!
