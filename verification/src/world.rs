use core::any::TypeId;

use vstd::prelude::*;

use crate::ids::{
    EntityId, UntypedComponentId, UntypedResourceId, lemma_untyped_component_id_ext,
    lemma_untyped_component_id_of,
};
use crate::table::{SameKey, Table};

verus! {

/// The entities of `s`, with `e` added unless it is there already.
pub open spec fn with_entity(s: Seq<EntityId>, e: EntityId) -> Seq<EntityId> {
    if s.contains(e) {
        s
    } else {
        s.push(e)
    }
}

/// Adding an entity to a list keeps every entity listed before, in place,
/// lists the added one, and lists nothing else.
pub proof fn law_with_entity(s: Seq<EntityId>, e: EntityId)
    ensures
        with_entity(s, e).contains(e),
        with_entity(s, e).len() == s.len() || with_entity(s, e).len() == s.len() + 1,
        forall|i: int| 0 <= i < s.len() ==> #[trigger] with_entity(s, e)[i] == s[i],
        forall|x: EntityId| #[trigger] with_entity(s, e).contains(x) ==> x == e || s.contains(x),
{
    if !s.contains(e) {
        assert(s.push(e)[s.len() as int] == e);
        assert forall|x: EntityId| #[trigger] s.push(e).contains(x) implies x == e || s.contains(x) by {
            let k = choose|k: int| 0 <= k < s.push(e).len() && s.push(e)[k] == x;
            if k < s.len() {
                assert(s[k] == x);
            }
        }
    }
}

/// What a checked lookup finds in `m` under `id`: the stored value when the
/// type the caller expects is the type named in `id` (`type_matches`) and
/// something is stored there; nothing otherwise.
pub open spec fn checked_lookup<K, V>(m: Map<K, V>, id: K, type_matches: bool) -> Option<V> {
    if type_matches && m.contains_key(id) {
        Some(m[id])
    } else {
        None
    }
}

/// Adds `e` to the entity list unless it is there already.
fn add_entity(list: &mut Vec<EntityId>, e: EntityId)
    requires
        old(list)@.no_duplicates(),
    ensures
        final(list)@ == with_entity(old(list)@, e),
        final(list)@.no_duplicates(),
{
    let mut i: usize = 0;
    while i < list.len()
        invariant
            i <= list@.len(),
            list@ == old(list)@,
            old(list)@.no_duplicates(),
            forall|j: int| 0 <= j < i ==> list@[j] != e,
        decreases list@.len() - i,
    {
        if list[i].same_key(&e) {
            assert(list@[i as int] == e);
            assert(list@.contains(e));
            return;
        }
        i = i + 1;
    }
    assert(!list@.contains(e));
    list.push(e);
}

/// The store behind a world: resources by identifier, the values of the
/// components of every entity, and the entities that hold each component type.
/// `V` is how a stored value is held.
pub struct WorldContainer<V> {
    resources: Table<UntypedResourceId, V>,
    entity_id: usize,
    instances: Table<UntypedComponentId, V>,
    components: Table<TypeId, Vec<EntityId>>,
}

impl<V> WorldContainer<V> {
    /// The resources, by identifier.
    pub closed spec fn resources(&self) -> Map<UntypedResourceId, V> {
        self.resources.map()
    }

    /// The value of every component, by component identifier.
    pub closed spec fn instances(&self) -> Map<UntypedComponentId, V> {
        self.instances.map()
    }

    /// The entities holding a component of type `ty`, in the order they got it.
    pub closed spec fn entities_of(&self, ty: TypeId) -> Seq<EntityId> {
        if self.components.map().contains_key(ty) {
            self.components.map()[ty]@
        } else {
            Seq::empty()
        }
    }

    /// The position the next spawned entity gets.
    pub closed spec fn next_entity(&self) -> usize {
        self.entity_id
    }

    /// The store's invariant: no identifier is listed twice, and an entity is
    /// listed under a component type exactly when it holds a value of that type.
    pub closed spec fn wf(&self) -> bool {
        &&& self.resources.wf()
        &&& self.instances.wf()
        &&& self.components.wf()
        &&& forall|ty: TypeId| #[trigger] self.entities_of(ty).no_duplicates()
        &&& forall|id: UntypedComponentId|
            #[trigger] self.instances().contains_key(id) <==> self.entities_of(id.type_id()).contains(
                id.entity(),
            )
    }

    /// A store that holds nothing, whose first entity gets position 0.
    pub fn new() -> (r: Self)
        ensures
            r.wf(),
            r.resources() == Map::<UntypedResourceId, V>::empty(),
            r.instances() == Map::<UntypedComponentId, V>::empty(),
            forall|ty: TypeId| #[trigger] r.entities_of(ty) == Seq::<EntityId>::empty(),
            r.next_entity() == 0,
    {
        WorldContainer {
            resources: Table::new(),
            entity_id: 0,
            instances: Table::new(),
            components: Table::new(),
        }
    }

    /// The position the next spawned entity gets.
    pub fn next_entity_index(&self) -> (r: usize)
        ensures
            r == self.next_entity(),
    {
        self.entity_id
    }

    /// Stores `resource` under `id`, giving back the resource it replaced, if any.
    pub fn insert_resource(&mut self, id: UntypedResourceId, resource: V) -> (r: Option<V>)
        requires
            old(self).wf(),
        ensures
            final(self).wf(),
            final(self).resources() == old(self).resources().insert(id, resource),
            final(self).instances() == old(self).instances(),
            forall|ty: TypeId| #[trigger] final(self).entities_of(ty) == old(self).entities_of(ty),
            final(self).next_entity() == old(self).next_entity(),
            r == (if old(self).resources().contains_key(id) {
                Some(old(self).resources()[id])
            } else {
                None::<V>
            }),
    {
        let ghost before = *self;
        let r = self.resources.insert(id, resource);
        assert forall|ty: TypeId| #[trigger] self.entities_of(ty) == before.entities_of(ty) by {}
        assert(self.instances() == before.instances());
        r
    }

    /// Whether a resource is stored under `id`.
    pub fn contains_resource(&self, id: &UntypedResourceId) -> (r: bool)
        requires
            self.wf(),
        ensures
            r == self.resources().contains_key(*id),
    {
        self.resources.contains_key(id)
    }

    /// The resource stored under `id`, storing the value `make` gives first
    /// when there is none.
    pub fn resource<F: FnOnce() -> V>(&mut self, id: UntypedResourceId, make: F) -> (r: &V)
        requires
            old(self).wf(),
            call_requires(make, ()),
        ensures
            final(self).wf(),
            old(self).resources().contains_key(id) ==> final(self).resources() == old(self).resources(),
            !old(self).resources().contains_key(id) ==> exists|v: V|
                call_ensures(make, (), v) && final(self).resources() == old(self).resources().insert(
                    id,
                    v,
                ),
            final(self).resources().contains_key(id),
            *r == final(self).resources()[id],
            final(self).instances() == old(self).instances(),
            forall|ty: TypeId| #[trigger] final(self).entities_of(ty) == old(self).entities_of(ty),
            final(self).next_entity() == old(self).next_entity(),
    {
        let ghost before = *self;
        if !self.resources.contains_key(&id) {
            let v = make();
            self.resources.insert(id, v);
            assert(self.resources().contains_key(id));
        }
        assert forall|ty: TypeId| #[trigger] self.entities_of(ty) == before.entities_of(ty) by {}
        assert(self.instances() == before.instances());
        self.resources.get(&id).unwrap()
    }

    /// The resource stored under `id`, when `expected` is the identifier of
    /// its type; nothing otherwise.
    pub fn resource_untyped_checked(&self, expected: TypeId, id: &UntypedResourceId) -> (r: Option<&V>)
        requires
            self.wf(),
        ensures
            r is Some == checked_lookup(self.resources(), *id, id.base() == expected) is Some,
            r is Some ==> *r.unwrap() == checked_lookup(
                self.resources(),
                *id,
                id.base() == expected,
            ).unwrap(),
    {
        if !id.base_type().same_key(&expected) {
            return None;
        }
        self.resources.get(id)
    }

    /// Gives `entity` the component `component` of type `ty`, replacing the
    /// value it held of that type, if any.
    pub fn attach(&mut self, entity: EntityId, ty: TypeId, component: V) -> (r: UntypedComponentId)
        requires
            old(self).wf(),
        ensures
            final(self).wf(),
            r.entity() == entity,
            r.type_id() == ty,
            final(self).instances() == old(self).instances().insert(r, component),
            final(self).entities_of(ty) == with_entity(old(self).entities_of(ty), entity),
            forall|t: TypeId| t != ty ==> #[trigger] final(self).entities_of(t) == old(self).entities_of(t),
            final(self).resources() == old(self).resources(),
            final(self).next_entity() == old(self).next_entity(),
    {
        let id = UntypedComponentId::new(entity, ty);
        let ghost old_entities = |t: TypeId| self.entities_of(t);
        let ghost old_instances = self.instances();
        let mut list = match self.components.remove(&ty) {
            Some(list) => list,
            None => Vec::new(),
        };
        assert(list@ == old_entities(ty));
        add_entity(&mut list, entity);
        self.components.insert(ty, list);
        self.instances.insert(id, component);
        proof {
            assert forall|t: TypeId| t != ty implies #[trigger] self.entities_of(t) == old_entities(t) by {
            }
            assert forall|q: UntypedComponentId| #[trigger] self.instances().contains_key(q) <==> self.entities_of(
                q.type_id(),
            ).contains(q.entity()) by {
                lemma_untyped_component_id_ext(q, id);
                if q.type_id() == ty {
                    assert(old_entities(ty).contains(q.entity()) <==> old_instances.contains_key(q));
                    if q.entity() == entity {
                        assert(with_entity(old_entities(ty), entity).contains(entity)) by {
                            if !old_entities(ty).contains(entity) {
                                assert(old_entities(ty).push(entity)[old_entities(ty).len() as int] == entity);
                            }
                        }
                    } else {
                        assert(with_entity(old_entities(ty), entity).contains(q.entity()) <==> old_entities(
                            ty,
                        ).contains(q.entity())) by {
                            if !old_entities(ty).contains(entity) {
                                let s = old_entities(ty);
                                if s.push(entity).contains(q.entity()) {
                                    let k = choose|k: int| 0 <= k < s.push(entity).len() && s.push(entity)[k] == q.entity();
                                    assert(k < s.len());
                                    assert(s[k] == q.entity());
                                }
                                if s.contains(q.entity()) {
                                    let k = choose|k: int| 0 <= k < s.len() && s[k] == q.entity();
                                    assert(s.push(entity)[k] == q.entity());
                                }
                            }
                        }
                    }
                } else {
                    assert(self.entities_of(q.type_id()) == old_entities(q.type_id()));
                }
            }
        }
        id
    }

    /// Spawns a new entity holding the component `component` of type `ty`.
    /// The entity gets the next position, and positions count up from there.
    pub fn spawn_component(&mut self, ty: TypeId, component: V) -> (r: UntypedComponentId)
        requires
            old(self).wf(),
            old(self).next_entity() < usize::MAX,
        ensures
            final(self).wf(),
            r.entity().index() == old(self).next_entity(),
            r.type_id() == ty,
            final(self).next_entity() == old(self).next_entity() + 1,
            final(self).instances() == old(self).instances().insert(r, component),
            final(self).entities_of(ty) == with_entity(old(self).entities_of(ty), r.entity()),
            forall|t: TypeId| t != ty ==> #[trigger] final(self).entities_of(t) == old(self).entities_of(t),
            final(self).resources() == old(self).resources(),
    {
        let ghost before = *self;
        let entity = EntityId::from_index(self.entity_id);
        self.entity_id = self.entity_id + 1;
        assert forall|ty: TypeId| #[trigger] self.entities_of(ty) == before.entities_of(ty) by {}
        assert(self.instances() == before.instances());
        self.attach(entity, ty, component)
    }

    /// The entities holding a component of type `ty`, in the order they got it.
    pub fn entities(&self, ty: TypeId) -> (r: Vec<EntityId>)
        requires
            self.wf(),
        ensures
            r@ == self.entities_of(ty),
    {
        let mut r: Vec<EntityId> = Vec::new();
        match self.components.get(&ty) {
            Some(list) => {
                let mut i: usize = 0;
                while i < list.len()
                    invariant
                        i <= list@.len(),
                        r@ == list@.take(i as int),
                    decreases list@.len() - i,
                {
                    r.push(list[i]);
                    assert(list@.take(i + 1) == list@.take(i as int).push(list@[i as int]));
                    i = i + 1;
                }
                assert(list@.take(list@.len() as int) == list@);
            },
            None => {},
        }
        r
    }

    /// The value of the component `id`, when `expected` is the identifier of
    /// its type; nothing otherwise.
    pub fn component_untyped_checked(&self, expected: TypeId, id: &UntypedComponentId) -> (r: Option<&V>)
        requires
            self.wf(),
        ensures
            r is Some == checked_lookup(self.instances(), *id, id.type_id() == expected) is Some,
            r is Some ==> *r.unwrap() == checked_lookup(
                self.instances(),
                *id,
                id.type_id() == expected,
            ).unwrap(),
    {
        if !id.component_type().same_key(&expected) {
            return None;
        }
        self.instances.get(id)
    }

    /// The values of the components of type `ty` of every entity that holds
    /// one, in the order the entities got them.
    pub fn query(&self, ty: TypeId) -> (r: Vec<&V>)
        requires
            self.wf(),
        ensures
            r@.len() == self.entities_of(ty).len(),
            forall|i: int|
                0 <= i < r@.len() ==> self.instances().contains_key(
                    UntypedComponentId::of(self.entities_of(ty)[i], ty),
                ) && *r@[i] == self.instances()[UntypedComponentId::of(
                    #[trigger] self.entities_of(ty)[i],
                    ty,
                )],
    {
        let entities = self.entities(ty);
        let mut r: Vec<&V> = Vec::new();
        let mut i: usize = 0;
        while i < entities.len()
            invariant
                self.wf(),
                entities@ == self.entities_of(ty),
                i <= entities@.len(),
                r@.len() == i,
                forall|j: int|
                    0 <= j < i ==> self.instances().contains_key(
                        UntypedComponentId::of(self.entities_of(ty)[j], ty),
                    ) && *r@[j] == self.instances()[UntypedComponentId::of(
                        #[trigger] self.entities_of(ty)[j],
                        ty,
                    )],
            decreases entities@.len() - i,
        {
            let id = UntypedComponentId::new(entities[i], ty);
            proof {
                lemma_untyped_component_id_of(entities@[i as int], ty);
                assert(self.entities_of(ty)[i as int] == entities@[i as int]);
                assert(self.entities_of(ty).contains(entities@[i as int]));
                assert(self.instances().contains_key(id));
            }
            let v = self.instances.get(&id).unwrap();
            r.push(v);
            i = i + 1;
        }
        r
    }

    /// The value of the component of type `ty` of the entity that got one
    /// first, if any entity holds one.
    pub fn first(&self, ty: TypeId) -> (r: Option<&V>)
        requires
            self.wf(),
        ensures
            r is Some == (self.entities_of(ty).len() > 0),
            r is Some ==> self.instances().contains_key(UntypedComponentId::of(self.entities_of(ty)[0], ty))
                && *r.unwrap() == self.instances()[UntypedComponentId::of(self.entities_of(ty)[0], ty)],
    {
        let entities = self.entities(ty);
        if entities.len() == 0 {
            return None;
        }
        let id = UntypedComponentId::new(entities[0], ty);
        proof {
            lemma_untyped_component_id_of(entities@[0], ty);
            assert(self.entities_of(ty)[0] == entities@[0]);
            assert(self.entities_of(ty).contains(entities@[0]));
            assert(self.instances().contains_key(id));
        }
        self.instances.get(&id)
    }
}

/// An entity is listed under a component type exactly when the store holds
/// its component of that type, and no entity is listed twice.
pub proof fn law_entities_match_components<V>(w: WorldContainer<V>, ty: TypeId)
    requires
        w.wf(),
    ensures
        w.entities_of(ty).no_duplicates(),
        forall|e: EntityId|
            #[trigger] w.entities_of(ty).contains(e) <==> w.instances().contains_key(
                UntypedComponentId::of(e, ty),
            ),
{
    assert forall|e: EntityId|
        #[trigger] w.entities_of(ty).contains(e) <==> w.instances().contains_key(
            UntypedComponentId::of(e, ty),
        ) by {
        lemma_untyped_component_id_of(e, ty);
    }
}

/// A component stored under an identifier is what a checked lookup that
/// expects its type finds there; a lookup that expects another type finds
/// nothing; lookups of every other identifier find what they found before.
pub proof fn law_read_after_write<K, V>(before: Map<K, V>, after: Map<K, V>, id: K, value: V)
    requires
        after == before.insert(id, value),
    ensures
        checked_lookup(after, id, true) == Some(value),
        checked_lookup(after, id, false) is None,
        forall|other: K, matches: bool|
            other != id ==> #[trigger] checked_lookup(after, other, matches) == checked_lookup(
                before,
                other,
                matches,
            ),
{
}

/// Entities spawned one after the other are different entities, and each
/// gets the position after the one before.
pub proof fn law_spawn_fresh<V>(
    w0: WorldContainer<V>,
    w1: WorldContainer<V>,
    first: UntypedComponentId,
    second: UntypedComponentId,
)
    requires
        first.entity().index() == w0.next_entity(),
        w1.next_entity() == w0.next_entity() + 1,
        second.entity().index() == w1.next_entity(),
    ensures
        first.entity() != second.entity(),
        second.entity().index() == first.entity().index() + 1,
{
}

} // verus!
