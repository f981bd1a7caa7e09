use core::any::TypeId;
use core::marker::PhantomData;

use vstd::prelude::*;

use crate::table::SameKey;

verus! {

/// `core::any::TypeId`, carried as an opaque value.
#[verifier::external_type_specification]
#[verifier::external_body]
pub struct ExTypeId(TypeId);

/// `core::any::TypeId::of`: nothing is promised of which identifier comes
/// back.
pub assume_specification<T: ?Sized + 'static>[ TypeId::of::<T> ]() -> TypeId;

/// `PartialEq::eq` of `TypeId`: two type identifiers compare equal exactly
/// when they are the same identifier.
#[verifier::external_body]
fn type_id_eq(a: &TypeId, b: &TypeId) -> (r: bool)
    ensures
        r == (*a == *b),
{
    *a == *b
}

impl SameKey for TypeId {
    fn same_key(&self, other: &Self) -> (r: bool) {
        type_id_eq(self, other)
    }
}

/// An entity of a world, named by the position at which it was spawned.
#[derive(Clone, Copy, Hash, PartialEq, Eq, PartialOrd, Ord, Debug, Structural)]
pub struct EntityId(usize);

impl EntityId {
    /// The position at which the entity was spawned.
    pub closed spec fn index(self) -> usize {
        self.0
    }

    /// Names the entity spawned at position `index`.
    pub(crate) fn from_index(index: usize) -> (r: Self)
        ensures
            r.index() == index,
    {
        EntityId(index)
    }

    /// The position at which the entity was spawned.
    pub fn get(&self) -> (r: usize)
        ensures
            r == self.index(),
    {
        self.0
    }

    /// The typed identifier of this entity's component of type `C`.
    pub fn component<C: Component>(self) -> (r: ComponentId<C>)
        ensures
            r.entity() == self,
    {
        ComponentId(self, PhantomData)
    }
}

impl SameKey for EntityId {
    fn same_key(&self, other: &Self) -> (r: bool) {
        self.0 == other.0
    }
}

/// Values that an entity can hold, one of each type.
pub trait Component: Sized + 'static {
    /// The identifier of this component type.
    fn id() -> TypeId {
        TypeId::of::<Self>()
    }
}

/// The component of one entity, with its type erased.
#[derive(Clone, Copy, Hash, PartialEq, Eq)]
pub struct UntypedComponentId(pub(crate) EntityId, pub(crate) TypeId);

impl UntypedComponentId {
    /// The entity that holds the component.
    pub closed spec fn entity(self) -> EntityId {
        self.0
    }

    /// The type of the component.
    pub closed spec fn type_id(self) -> TypeId {
        self.1
    }

    /// The identifier of the component of type `ty` held by `entity`.
    pub closed spec fn of(entity: EntityId, ty: TypeId) -> Self {
        UntypedComponentId(entity, ty)
    }

    /// Names the component of type `ty` held by `entity`.
    pub fn new(entity: EntityId, ty: TypeId) -> (r: Self)
        ensures
            r == Self::of(entity, ty),
            r.entity() == entity,
            r.type_id() == ty,
    {
        UntypedComponentId(entity, ty)
    }

    /// The entity that holds the component.
    pub fn entity_id(&self) -> (r: EntityId)
        ensures
            r == self.entity(),
    {
        self.0
    }

    /// The type of the component.
    pub fn component_type(&self) -> (r: TypeId)
        ensures
            r == self.type_id(),
    {
        self.1
    }
}

/// A type-erased component identifier is determined by its entity and its type.
pub proof fn lemma_untyped_component_id_ext(a: UntypedComponentId, b: UntypedComponentId)
    ensures
        (a.entity() == b.entity() && a.type_id() == b.type_id()) <==> a == b,
{
}

/// The identifier built from an entity and a type has that entity and type.
pub proof fn lemma_untyped_component_id_of(entity: EntityId, ty: TypeId)
    ensures
        UntypedComponentId::of(entity, ty).entity() == entity,
        UntypedComponentId::of(entity, ty).type_id() == ty,
{
}

/// An entity identifier is determined by its position.
pub proof fn lemma_entity_id_ext(a: EntityId, b: EntityId)
    ensures
        (a.index() == b.index()) <==> a == b,
{
}

impl SameKey for UntypedComponentId {
    fn same_key(&self, other: &Self) -> (r: bool) {
        self.0.0 == other.0.0 && type_id_eq(&self.1, &other.1)
    }
}

/// The component of type `C` held by one entity.
pub struct ComponentId<C: Component>(pub(crate) EntityId, pub(crate) PhantomData<C>);

impl<C: Component> ComponentId<C> {
    /// The entity that holds the component.
    pub closed spec fn entity(self) -> EntityId {
        self.0
    }

    /// The entity that holds the component.
    pub fn entity_id(&self) -> (r: EntityId)
        ensures
            r == self.entity(),
    {
        self.0
    }

    /// The same component with its type erased.
    pub fn untyped(self) -> (r: UntypedComponentId)
        ensures
            r.entity() == self.entity(),
    {
        UntypedComponentId(self.0, C::id())
    }
}

impl<C: Component> Clone for ComponentId<C> {
    fn clone(&self) -> (r: Self)
        ensures
            r == *self,
    {
        ComponentId(self.0, PhantomData)
    }
}

impl<C: Component> Copy for ComponentId<C> {

}

impl<C: Component> PartialEq for ComponentId<C> {
    fn eq(&self, other: &Self) -> (r: bool) {
        self.0.0 == other.0.0
    }
}

impl<C: Component> vstd::std_specs::cmp::PartialEqSpecImpl for ComponentId<C> {
    open spec fn obeys_eq_spec() -> bool {
        true
    }

    open spec fn eq_spec(&self, other: &Self) -> bool {
        self.entity() == other.entity()
    }
}

impl<C: Component> Eq for ComponentId<C> {

}

impl<C: Component> PartialOrd for ComponentId<C> {
    fn partial_cmp(&self, other: &Self) -> (r: Option<core::cmp::Ordering>) {
        if self.0.0 < other.0.0 {
            Some(core::cmp::Ordering::Less)
        } else if self.0.0 == other.0.0 {
            Some(core::cmp::Ordering::Equal)
        } else {
            Some(core::cmp::Ordering::Greater)
        }
    }
}

impl<C: Component> vstd::std_specs::cmp::PartialOrdSpecImpl for ComponentId<C> {
    open spec fn obeys_partial_cmp_spec() -> bool {
        true
    }

    open spec fn partial_cmp_spec(&self, other: &Self) -> Option<core::cmp::Ordering> {
        if self.entity().index() < other.entity().index() {
            Some(core::cmp::Ordering::Less)
        } else if self.entity().index() == other.entity().index() {
            Some(core::cmp::Ordering::Equal)
        } else {
            Some(core::cmp::Ordering::Greater)
        }
    }
}

/// A resource of a world, named by the type of the resource and a second
/// type that tells apart resources of the same type.
#[derive(Clone, Copy, PartialEq, Eq, Hash)]
pub struct UntypedResourceId(pub(crate) TypeId, pub(crate) TypeId);

impl UntypedResourceId {
    /// The type of the resource.
    pub closed spec fn base(self) -> TypeId {
        self.0
    }

    /// The type that tells apart resources of the same type.
    pub closed spec fn diff(self) -> TypeId {
        self.1
    }

    /// The identifier of the resource of type `Base` told apart by `Diff`.
    pub fn new<Base: Resource, Diff: ?Sized + 'static>() -> (r: Self) {
        UntypedResourceId(TypeId::of::<Base>(), TypeId::of::<Diff>())
    }

    /// Names the resource whose type has identifier `base`, told apart by `diff`.
    pub fn from_parts(base: TypeId, diff: TypeId) -> (r: Self)
        ensures
            r.base() == base,
            r.diff() == diff,
    {
        UntypedResourceId(base, diff)
    }

    /// The type of the resource.
    pub fn base_type(&self) -> (r: TypeId)
        ensures
            r == self.base(),
    {
        self.0
    }

    /// The type that tells apart resources of the same type.
    pub fn diff_type(&self) -> (r: TypeId)
        ensures
            r == self.diff(),
    {
        self.1
    }
}

/// A resource identifier is determined by its two types.
pub proof fn lemma_untyped_resource_id_ext(a: UntypedResourceId, b: UntypedResourceId)
    ensures
        (a.base() == b.base() && a.diff() == b.diff()) <==> a == b,
{
}

impl SameKey for UntypedResourceId {
    fn same_key(&self, other: &Self) -> (r: bool) {
        type_id_eq(&self.0, &other.0) && type_id_eq(&self.1, &other.1)
    }
}

/// The resource of type `R` told apart by the type whose identifier it holds.
pub struct ResourceId<R: Resource>(pub(crate) PhantomData<R>, pub(crate) TypeId);

impl<R: Resource> ResourceId<R> {
    /// The type that tells apart resources of type `R`.
    pub closed spec fn diff(self) -> TypeId {
        self.1
    }

    /// The identifier of the resource of type `R` told apart by `Diff`.
    pub fn new<Diff: ?Sized + 'static>() -> (r: Self) {
        ResourceId(PhantomData, TypeId::of::<Diff>())
    }

    /// The same resource with its type erased.
    pub fn untyped(&self) -> (r: UntypedResourceId)
        ensures
            r.diff() == self.diff(),
    {
        UntypedResourceId(TypeId::of::<R>(), self.1)
    }
}

impl<R: Resource> Clone for ResourceId<R> {
    fn clone(&self) -> (r: Self)
        ensures
            r == *self,
    {
        ResourceId(PhantomData, self.1)
    }
}

impl<R: Resource> Copy for ResourceId<R> {

}

/// Values that a world holds once per identifier.
pub trait Resource: Sized + 'static {
    /// The identifier of the resource of this type told apart by `()`.
    fn resource_id() -> UntypedResourceId {
        UntypedResourceId(TypeId::of::<Self>(), TypeId::of::<()>())
    }
}

} // verus!
