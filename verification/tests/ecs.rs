use delphos::{Component, Resource, ResourceId, UntypedComponentId, UntypedResourceId, WorldContainer};
use std::any::TypeId;

struct Position;
impl Component for Position {}

struct Velocity;
impl Component for Velocity {}

#[derive(Default)]
struct Score;
impl Resource for Score {}

struct Other;

#[test]
fn spawned_entities_count_up() {
    let mut w: WorldContainer<&str> = WorldContainer::new();
    let a = w.spawn_component(TypeId::of::<Position>(), "a");
    let b = w.spawn_component(TypeId::of::<Position>(), "b");
    assert_eq!(a.entity_id().get(), 0);
    assert_eq!(b.entity_id().get(), 1);
    assert!(a.component_type() == TypeId::of::<Position>());
}

#[test]
fn component_lookup_checks_type() {
    let mut w: WorldContainer<i32> = WorldContainer::new();
    let id = w.spawn_component(TypeId::of::<Position>(), 7);
    assert_eq!(w.component_untyped_checked(TypeId::of::<Position>(), &id), Some(&7));
    assert_eq!(w.component_untyped_checked(TypeId::of::<Velocity>(), &id), None);
    let missing = UntypedComponentId::new(id.entity_id(), TypeId::of::<Velocity>());
    assert_eq!(w.component_untyped_checked(TypeId::of::<Velocity>(), &missing), None);
}

#[test]
fn attach_adds_and_replaces() {
    let mut w: WorldContainer<i32> = WorldContainer::new();
    let p = w.spawn_component(TypeId::of::<Position>(), 1);
    let e = p.entity_id();
    let v = w.attach(e, TypeId::of::<Velocity>(), 2);
    assert_eq!(w.component_untyped_checked(TypeId::of::<Velocity>(), &v), Some(&2));
    let v2 = w.attach(e, TypeId::of::<Velocity>(), 3);
    assert!(v == v2);
    assert_eq!(w.component_untyped_checked(TypeId::of::<Velocity>(), &v), Some(&3));
    assert_eq!(w.entities(TypeId::of::<Velocity>()), vec![e]);
    assert_eq!(w.entities(TypeId::of::<Position>()), vec![e]);
}

#[test]
fn entities_and_queries_in_spawn_order() {
    let mut w: WorldContainer<i32> = WorldContainer::new();
    let a = w.spawn_component(TypeId::of::<Position>(), 10).entity_id();
    let _ = w.spawn_component(TypeId::of::<Velocity>(), 20);
    let c = w.spawn_component(TypeId::of::<Position>(), 30).entity_id();
    assert_eq!(w.entities(TypeId::of::<Position>()), vec![a, c]);
    assert_eq!(w.query(TypeId::of::<Position>()), vec![&10, &30]);
    assert_eq!(w.first(TypeId::of::<Position>()), Some(&10));
    assert!(w.entities(TypeId::of::<Other>()).is_empty());
    assert!(w.query(TypeId::of::<Other>()).is_empty());
    assert_eq!(w.first(TypeId::of::<Other>()), None);
}

#[test]
fn typed_component_ids() {
    let mut w: WorldContainer<i32> = WorldContainer::new();
    let e = w.spawn_component(TypeId::of::<Position>(), 1).entity_id();
    let typed = e.component::<Position>();
    let untyped = typed.untyped();
    assert!(untyped.entity_id() == e);
    assert!(untyped.component_type() == Position::id());
    assert_eq!(w.component_untyped_checked(Position::id(), &untyped), Some(&1));
    let copy = typed;
    assert!(copy == typed);
}

#[test]
fn resources_insert_and_replace() {
    let mut w: WorldContainer<u32> = WorldContainer::new();
    let id = Score::resource_id();
    assert!(!w.contains_resource(&id));
    assert_eq!(w.insert_resource(id, 5), None);
    assert_eq!(w.insert_resource(id, 6), Some(5));
    assert_eq!(w.resource_untyped_checked(TypeId::of::<Score>(), &id), Some(&6));
    assert_eq!(w.resource_untyped_checked(TypeId::of::<Other>(), &id), None);
}

#[test]
fn resource_made_once() {
    let mut w: WorldContainer<u32> = WorldContainer::new();
    let id = UntypedResourceId::new::<Score, Other>();
    assert_eq!(*w.resource(id, || 41), 41);
    assert_eq!(*w.resource(id, || 99), 41);
    assert!(w.contains_resource(&id));
}

#[test]
fn resource_ids_tell_apart_diff_types() {
    let plain = Score::resource_id();
    let other = UntypedResourceId::new::<Score, Other>();
    assert!(plain != other);
    assert!(plain == UntypedResourceId::new::<Score, ()>());
    let typed = ResourceId::<Score>::new::<Other>();
    assert!(typed.untyped() == other);
    assert!(other.base_type() == TypeId::of::<Score>());
    assert!(other.diff_type() == TypeId::of::<Other>());
}

#[test]
fn component_ids_order_by_entity() {
    let mut w: WorldContainer<i32> = WorldContainer::new();
    let a = w.spawn_component(TypeId::of::<Position>(), 1).entity_id().component::<Position>();
    let b = w.spawn_component(TypeId::of::<Position>(), 2).entity_id().component::<Position>();
    assert_eq!(a.partial_cmp(&b), Some(std::cmp::Ordering::Less));
    assert_eq!(b.partial_cmp(&a), Some(std::cmp::Ordering::Greater));
    assert_eq!(a.partial_cmp(&a), Some(std::cmp::Ordering::Equal));
    assert!(a < b);
}
