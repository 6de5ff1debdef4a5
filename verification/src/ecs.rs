//! The entity-component store.
//!
//! An entity is an index. For every component type the store keeps one
//! dense, index-aligned sequence of optional slots, and all four sequences
//! always have the same length. Aliased access is guarded by one borrow
//! flag per component type — free, shared with a count, or exclusive —
//! checked at every borrow request; a conflicting request fails at once, it
//! never blocks.

use vstd::prelude::*;
use crate::cubemap::CubemapComponent;
use crate::model::{Material, Model};
use crate::transform::{transform_ok, Transform};

verus! {

/// The four component types the store can hold.
#[derive(Clone, Copy, Debug, PartialEq, Eq, Structural)]
pub enum ComponentKind {
    Transform,
    Model,
    Material,
    Cubemap,
}

/// One component value to attach to an entity.
#[derive(Clone, Debug)]
pub enum Component {
    Transform(Transform),
    Model(Model),
    Material(Material),
    Cubemap(CubemapComponent),
}

/// The component type a value belongs to.
pub open spec fn kind_of(c: Component) -> ComponentKind {
    match c {
        Component::Transform(_) => ComponentKind::Transform,
        Component::Model(_) => ComponentKind::Model,
        Component::Material(_) => ComponentKind::Material,
        Component::Cubemap(_) => ComponentKind::Cubemap,
    }
}

/// The borrow state of one component sequence: free, shared some number of
/// times, or exclusively held.
#[derive(Clone, Copy, Debug, PartialEq, Eq, Structural)]
pub enum BorrowFlag {
    Free,
    Shared(usize),
    Exclusive,
}

/// What can go wrong when talking to the store.
#[derive(Clone, Copy, Debug, PartialEq, Eq, Structural)]
pub enum EcsError {
    /// The entity id was never issued by this store.
    NoSuchEntity,
    /// A component sequence is borrowed, so the store cannot be changed.
    BorrowConflict,
}

/// What giving back one borrow does to a flag: an exclusive borrow becomes
/// free, a shared borrow loses one holder, a free flag stays free.
pub open spec fn release_s(f: BorrowFlag) -> BorrowFlag {
    match f {
        BorrowFlag::Free => BorrowFlag::Free,
        BorrowFlag::Shared(n) => if n <= 1 {
            BorrowFlag::Free
        } else {
            BorrowFlag::Shared((n - 1) as usize)
        },
        BorrowFlag::Exclusive => BorrowFlag::Free,
    }
}

/// A flag after `k` releases.
pub open spec fn release_n_s(f: BorrowFlag, k: nat) -> BorrowFlag
    decreases k,
{
    if k == 0 {
        f
    } else {
        release_n_s(release_s(f), (k - 1) as nat)
    }
}

/// A slot sequence grown to length `n` with absent slots; a sequence
/// already long enough is unchanged.
pub open spec fn grown<T>(s: Seq<Option<T>>, n: nat) -> Seq<Option<T>> {
    if s.len() >= n {
        s
    } else {
        s + Seq::new((n - s.len()) as nat, |i: int| None)
    }
}

/// How a grown sequence reads: old values below the old length, absent
/// slots above it.
pub broadcast proof fn lemma_grown<T>(s: Seq<Option<T>>, n: nat)
    ensures
        (#[trigger] grown(s, n)).len() == (if s.len() >= n {
            s.len()
        } else {
            n
        }),
        forall|j: int| 0 <= j < s.len() ==> grown(s, n)[j] == s[j],
        forall|j: int| s.len() <= j < n ==> grown(s, n)[j] is None,
{
}

/// Grow a slot vector to length `n` with absent slots.
fn grow_slots<T>(v: &mut Vec<Option<T>>, n: usize)
    ensures
        final(v)@ == grown(old(v)@, n as nat),
{
    while v.len() < n
        invariant
            old(v)@.len() <= v@.len(),
            v@.len() <= n as nat || v@.len() == old(v)@.len(),
            v@.subrange(0, old(v)@.len() as int) == old(v)@,
            forall|i: int| old(v)@.len() <= i < v@.len() ==> v@[i] is None,
        decreases n - v@.len(),
    {
        v.push(None);
    }
    proof {
        assert(final(v)@ =~= grown(old(v)@, n as nat));
    }
}

/// The entity-component store.
pub struct World {
    next_entity: usize,
    transforms: Vec<Option<Transform>>,
    models: Vec<Option<Model>>,
    materials: Vec<Option<Material>>,
    cubemaps: Vec<Option<CubemapComponent>>,
    transforms_flag: BorrowFlag,
    models_flag: BorrowFlag,
    materials_flag: BorrowFlag,
    cubemaps_flag: BorrowFlag,
}

impl World {
    /// How many entities this store has issued.
    pub closed spec fn count_s(self) -> nat {
        self.next_entity as nat
    }

    /// The transform slots.
    pub closed spec fn transforms_s(self) -> Seq<Option<Transform>> {
        self.transforms@
    }

    /// The model slots.
    pub closed spec fn models_s(self) -> Seq<Option<Model>> {
        self.models@
    }

    /// The material slots.
    pub closed spec fn materials_s(self) -> Seq<Option<Material>> {
        self.materials@
    }

    /// The cubemap slots.
    pub closed spec fn cubemaps_s(self) -> Seq<Option<CubemapComponent>> {
        self.cubemaps@
    }

    /// The borrow flag guarding one component sequence.
    pub closed spec fn flag_s(self, kind: ComponentKind) -> BorrowFlag {
        match kind {
            ComponentKind::Transform => self.transforms_flag,
            ComponentKind::Model => self.models_flag,
            ComponentKind::Material => self.materials_flag,
            ComponentKind::Cubemap => self.cubemaps_flag,
        }
    }

    /// The common length of the component sequences.
    pub open spec fn slot_len_s(self) -> nat {
        self.transforms_s().len()
    }

    /// The store invariant: every component sequence has the same length,
    /// no slot belongs to an entity that was never issued, and every stored
    /// transform is within the fixed-point range.
    pub open spec fn wf(self) -> bool {
        &&& self.transforms_s().len() == self.models_s().len()
        &&& self.models_s().len() == self.materials_s().len()
        &&& self.materials_s().len() == self.cubemaps_s().len()
        &&& self.slot_len_s() <= self.count_s()
        &&& forall|i: int|
            0 <= i < self.transforms_s().len() ==> ((#[trigger] self.transforms_s()[i]) matches
                Some(t) ==> transform_ok(t))
    }

    /// No component sequence is borrowed.
    pub open spec fn all_free_s(self) -> bool {
        &&& self.flag_s(ComponentKind::Transform) is Free
        &&& self.flag_s(ComponentKind::Model) is Free
        &&& self.flag_s(ComponentKind::Material) is Free
        &&& self.flag_s(ComponentKind::Cubemap) is Free
    }

    /// An empty store: no entities, no slots, nothing borrowed.
    pub fn new() -> (r: World)
        ensures
            r.count_s() == 0,
            r.transforms_s() == Seq::<Option<Transform>>::empty(),
            r.models_s() == Seq::<Option<Model>>::empty(),
            r.materials_s() == Seq::<Option<Material>>::empty(),
            r.cubemaps_s() == Seq::<Option<CubemapComponent>>::empty(),
            r.all_free_s(),
            r.wf(),
    {
        let r = World {
            next_entity: 0,
            transforms: Vec::new(),
            models: Vec::new(),
            materials: Vec::new(),
            cubemaps: Vec::new(),
            transforms_flag: BorrowFlag::Free,
            models_flag: BorrowFlag::Free,
            materials_flag: BorrowFlag::Free,
            cubemaps_flag: BorrowFlag::Free,
        };
        proof {
            assert(r.transforms_s() =~= Seq::<Option<Transform>>::empty());
            assert(r.models_s() =~= Seq::<Option<Model>>::empty());
            assert(r.materials_s() =~= Seq::<Option<Material>>::empty());
            assert(r.cubemaps_s() =~= Seq::<Option<CubemapComponent>>::empty());
        }
        r
    }

    /// The number of entities issued so far.
    pub fn entity_count(&self) -> (r: usize)
        ensures
            r == self.count_s(),
    {
        self.next_entity
    }

    /// The common length of the component sequences.
    pub fn slot_count(&self) -> (r: usize)
        ensures
            r == self.slot_len_s(),
    {
        self.transforms.len()
    }

    /// Issue the next entity id. Ids increase by one and are never reused;
    /// no component sequence changes.
    pub fn new_entity(&mut self) -> (e: usize)
        requires
            old(self).count_s() < usize::MAX,
        ensures
            e == old(self).count_s(),
            final(self).count_s() == old(self).count_s() + 1,
            final(self).transforms_s() == old(self).transforms_s(),
            final(self).models_s() == old(self).models_s(),
            final(self).materials_s() == old(self).materials_s(),
            final(self).cubemaps_s() == old(self).cubemaps_s(),
            forall|k: ComponentKind| final(self).flag_s(k) == old(self).flag_s(k),
            old(self).wf() ==> final(self).wf(),
    {
        let e = self.next_entity;
        self.next_entity = self.next_entity + 1;
        e
    }

    /// Whether no component sequence is borrowed.
    pub fn all_free(&self) -> (r: bool)
        ensures
            r == self.all_free_s(),
    {
        matches!(self.transforms_flag, BorrowFlag::Free)
            && matches!(self.models_flag, BorrowFlag::Free)
            && matches!(self.materials_flag, BorrowFlag::Free)
            && matches!(self.cubemaps_flag, BorrowFlag::Free)
    }

    /// Attach a component to an entity: every component sequence grows (with
    /// absent slots) until it covers all issued entities, then the one slot
    /// of the component's type at this entity is set. Fails if the id was
    /// never issued, or if any sequence is borrowed; a failed call changes
    /// nothing.
    pub fn add_component_to_entity(&mut self, entity: usize, component: Component) -> (r: Result<
        (),
        EcsError,
    >)
        requires
            old(self).wf(),
            component matches Component::Transform(t) ==> transform_ok(t),
        ensures
            r == Err::<(), EcsError>(EcsError::NoSuchEntity) <==> entity >= old(self).count_s(),
            r == Err::<(), EcsError>(EcsError::BorrowConflict) <==> (entity < old(self).count_s()
                && !old(self).all_free_s()),
            r is Ok <==> (entity < old(self).count_s() && old(self).all_free_s()),
            r is Err ==> *final(self) == *old(self),
            final(self).count_s() == old(self).count_s(),
            forall|k: ComponentKind| final(self).flag_s(k) == old(self).flag_s(k),
            final(self).wf(),
            r is Ok ==> final(self).slot_len_s() == old(self).count_s(),
            r is Ok ==> final(self).transforms_s() == (if kind_of(component) is Transform {
                grown(old(self).transforms_s(), old(self).count_s()).update(
                    entity as int,
                    Some(component->Transform_0),
                )
            } else {
                grown(old(self).transforms_s(), old(self).count_s())
            }),
            r is Ok ==> final(self).models_s() == (if kind_of(component) is Model {
                grown(old(self).models_s(), old(self).count_s()).update(
                    entity as int,
                    Some(component->Model_0),
                )
            } else {
                grown(old(self).models_s(), old(self).count_s())
            }),
            r is Ok ==> final(self).materials_s() == (if kind_of(component) is Material {
                grown(old(self).materials_s(), old(self).count_s()).update(
                    entity as int,
                    Some(component->Material_0),
                )
            } else {
                grown(old(self).materials_s(), old(self).count_s())
            }),
            r is Ok ==> final(self).cubemaps_s() == (if kind_of(component) is Cubemap {
                grown(old(self).cubemaps_s(), old(self).count_s()).update(
                    entity as int,
                    Some(component->Cubemap_0),
                )
            } else {
                grown(old(self).cubemaps_s(), old(self).count_s())
            }),
    {
        if entity >= self.next_entity {
            return Err(EcsError::NoSuchEntity);
        }
        if !self.all_free() {
            return Err(EcsError::BorrowConflict);
        }
        let n = self.next_entity;
        grow_slots(&mut self.transforms, n);
        grow_slots(&mut self.models, n);
        grow_slots(&mut self.materials, n);
        grow_slots(&mut self.cubemaps, n);
        match component {
            Component::Transform(t) => {
                self.transforms[entity] = Some(t);
            },
            Component::Model(m) => {
                self.models[entity] = Some(m);
            },
            Component::Material(m) => {
                self.materials[entity] = Some(m);
            },
            Component::Cubemap(c) => {
                self.cubemaps[entity] = Some(c);
            },
        }
        Ok(())
    }

    /// Take a shared borrow of one component sequence: allowed while the
    /// sequence is free or already shared, refused while it is exclusively
    /// held.
    pub fn try_borrow(&mut self, kind: ComponentKind) -> (r: bool)
        ensures
            r == (old(self).flag_s(kind) is Free || (old(self).flag_s(kind) is Shared && old(
                self,
            ).flag_s(kind)->Shared_0 < usize::MAX)),
            r ==> final(self).flag_s(kind) == (if old(self).flag_s(kind) is Free {
                BorrowFlag::Shared(1)
            } else {
                BorrowFlag::Shared((old(self).flag_s(kind)->Shared_0 + 1) as usize)
            }),
            !r ==> *final(self) == *old(self),
            forall|k: ComponentKind| k != kind ==> final(self).flag_s(k) == old(self).flag_s(k),
            final(self).count_s() == old(self).count_s(),
            final(self).transforms_s() == old(self).transforms_s(),
            final(self).models_s() == old(self).models_s(),
            final(self).materials_s() == old(self).materials_s(),
            final(self).cubemaps_s() == old(self).cubemaps_s(),
    {
        let flag = self.read_flag(kind);
        match flag {
            BorrowFlag::Free => {
                self.write_flag(kind, BorrowFlag::Shared(1));
                true
            },
            BorrowFlag::Shared(n) => {
                if n < usize::MAX {
                    self.write_flag(kind, BorrowFlag::Shared(n + 1));
                    true
                } else {
                    false
                }
            },
            BorrowFlag::Exclusive => false,
        }
    }

    /// Take the exclusive borrow of one component sequence: allowed only
    /// while the sequence is completely free — any outstanding borrow,
    /// shared or exclusive, refuses it.
    pub fn try_borrow_mut(&mut self, kind: ComponentKind) -> (r: bool)
        ensures
            r == old(self).flag_s(kind) is Free,
            r ==> final(self).flag_s(kind) == BorrowFlag::Exclusive,
            !r ==> *final(self) == *old(self),
            forall|k: ComponentKind| k != kind ==> final(self).flag_s(k) == old(self).flag_s(k),
            final(self).count_s() == old(self).count_s(),
            final(self).transforms_s() == old(self).transforms_s(),
            final(self).models_s() == old(self).models_s(),
            final(self).materials_s() == old(self).materials_s(),
            final(self).cubemaps_s() == old(self).cubemaps_s(),
    {
        let flag = self.read_flag(kind);
        match flag {
            BorrowFlag::Free => {
                self.write_flag(kind, BorrowFlag::Exclusive);
                true
            },
            _ => false,
        }
    }

    /// Give back one borrow of one component sequence: an exclusive borrow
    /// becomes free, a shared borrow loses one holder. Returns whether
    /// there was a borrow to release.
    pub fn release(&mut self, kind: ComponentKind) -> (r: bool)
        ensures
            r == !(old(self).flag_s(kind) is Free),
            final(self).flag_s(kind) == release_s(old(self).flag_s(kind)),
            forall|k: ComponentKind| k != kind ==> final(self).flag_s(k) == old(self).flag_s(k),
            final(self).count_s() == old(self).count_s(),
            final(self).transforms_s() == old(self).transforms_s(),
            final(self).models_s() == old(self).models_s(),
            final(self).materials_s() == old(self).materials_s(),
            final(self).cubemaps_s() == old(self).cubemaps_s(),
    {
        let flag = self.read_flag(kind);
        match flag {
            BorrowFlag::Free => false,
            BorrowFlag::Shared(n) => {
                if n <= 1 {
                    self.write_flag(kind, BorrowFlag::Free);
                } else {
                    self.write_flag(kind, BorrowFlag::Shared(n - 1));
                }
                true
            },
            BorrowFlag::Exclusive => {
                self.write_flag(kind, BorrowFlag::Free);
                true
            },
        }
    }

    /// Read one borrow flag.
    fn read_flag(&self, kind: ComponentKind) -> (r: BorrowFlag)
        ensures
            r == self.flag_s(kind),
    {
        match kind {
            ComponentKind::Transform => self.transforms_flag,
            ComponentKind::Model => self.models_flag,
            ComponentKind::Material => self.materials_flag,
            ComponentKind::Cubemap => self.cubemaps_flag,
        }
    }

    /// Write one borrow flag; nothing else changes.
    fn write_flag(&mut self, kind: ComponentKind, flag: BorrowFlag)
        ensures
            final(self).flag_s(kind) == flag,
            forall|k: ComponentKind| k != kind ==> final(self).flag_s(k) == old(self).flag_s(k),
            final(self).count_s() == old(self).count_s(),
            final(self).transforms_s() == old(self).transforms_s(),
            final(self).models_s() == old(self).models_s(),
            final(self).materials_s() == old(self).materials_s(),
            final(self).cubemaps_s() == old(self).cubemaps_s(),
    {
        match kind {
            ComponentKind::Transform => {
                self.transforms_flag = flag;
            },
            ComponentKind::Model => {
                self.models_flag = flag;
            },
            ComponentKind::Material => {
                self.materials_flag = flag;
            },
            ComponentKind::Cubemap => {
                self.cubemaps_flag = flag;
            },
        }
    }

    /// Whether an entity has a component of a kind.
    pub fn has_component(&self, entity: usize, kind: ComponentKind) -> (r: bool)
        ensures
            r == (match kind {
                ComponentKind::Transform => entity < self.transforms_s().len()
                    && self.transforms_s()[entity as int] is Some,
                ComponentKind::Model => entity < self.models_s().len()
                    && self.models_s()[entity as int] is Some,
                ComponentKind::Material => entity < self.materials_s().len()
                    && self.materials_s()[entity as int] is Some,
                ComponentKind::Cubemap => entity < self.cubemaps_s().len()
                    && self.cubemaps_s()[entity as int] is Some,
            }),
    {
        match kind {
            ComponentKind::Transform => entity < self.transforms.len()
                && self.transforms[entity].is_some(),
            ComponentKind::Model => entity < self.models.len() && self.models[entity].is_some(),
            ComponentKind::Material => entity < self.materials.len()
                && self.materials[entity].is_some(),
            ComponentKind::Cubemap => entity < self.cubemaps.len()
                && self.cubemaps[entity].is_some(),
        }
    }

    /// The transform slot of an entity (a copy), absent when out of range.
    pub fn transform_at(&self, entity: usize) -> (r: Option<Transform>)
        ensures
            r == (if entity < self.transforms_s().len() {
                self.transforms_s()[entity as int]
            } else {
                None
            }),
    {
        if entity < self.transforms.len() {
            self.transforms[entity]
        } else {
            None
        }
    }

    /// The model slot of an entity, absent when out of range.
    pub fn model_at(&self, entity: usize) -> (r: Option<&Model>)
        ensures
            match r {
                Some(m) => entity < self.models_s().len() && self.models_s()[entity as int]
                    == Some(*m),
                None => entity >= self.models_s().len() || self.models_s()[entity as int] is None,
            },
    {
        if entity < self.models.len() {
            self.models[entity].as_ref()
        } else {
            None
        }
    }

    /// The material slot of an entity (a copy), absent when out of range.
    pub fn material_at(&self, entity: usize) -> (r: Option<Material>)
        ensures
            r == (if entity < self.materials_s().len() {
                self.materials_s()[entity as int]
            } else {
                None
            }),
    {
        if entity < self.materials.len() {
            self.materials[entity]
        } else {
            None
        }
    }

    /// The cubemap slot of an entity (a copy), absent when out of range.
    pub fn cubemap_at(&self, entity: usize) -> (r: Option<CubemapComponent>)
        ensures
            r == (if entity < self.cubemaps_s().len() {
                self.cubemaps_s()[entity as int]
            } else {
                None
            }),
    {
        if entity < self.cubemaps.len() {
            self.cubemaps[entity]
        } else {
            None
        }
    }
}

/// Releasing every outstanding borrow permits the exclusive borrow again: a
/// sequence shared by `n` holders is free after exactly `n` releases, and an
/// exclusively held one after a single release.
pub proof fn lemma_release_all_enables_exclusive(f: BorrowFlag)
    ensures
        f matches BorrowFlag::Shared(n) ==> (n >= 1 ==> release_n_s(f, n as nat) is Free),
        f is Exclusive ==> release_s(f) is Free,
{
    if let BorrowFlag::Shared(n) = f {
        if n >= 1 {
            lemma_shared_releases(n as nat);
        }
    }
}

/// A share count of `k` reaches the free state in exactly `k` releases.
proof fn lemma_shared_releases(k: nat)
    requires
        1 <= k <= usize::MAX,
    ensures
        release_n_s(BorrowFlag::Shared(k as usize), k) is Free,
    decreases k,
{
    let f = BorrowFlag::Shared(k as usize);
    if k == 1 {
        assert(release_s(f) == BorrowFlag::Free);
        assert(release_n_s(f, 1) == release_n_s(BorrowFlag::Free, 0));
    } else {
        assert(release_s(f) == BorrowFlag::Shared((k - 1) as usize));
        assert(release_n_s(f, k) == release_n_s(BorrowFlag::Shared((k - 1) as usize), (k
            - 1) as nat));
        lemma_shared_releases((k - 1) as nat);
    }
}

} // verus!
