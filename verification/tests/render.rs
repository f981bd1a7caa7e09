use delphos::{binding_of, bindings_are_contiguous, sort_by_binding, BindParams, RenderQueue};
use std::any::TypeId;

fn params(shader: u64, material: u64) -> BindParams {
    BindParams { shader, material }
}

#[test]
fn queue_starts_empty() {
    let q: RenderQueue<u8> = RenderQueue::new();
    assert_eq!(q.len(), 0);
    assert!(q.triangles().is_empty());
    assert!(q.index_data().is_empty());
    assert!(q.batches().is_empty());
}

#[test]
fn indices_move_past_queued_vertices() {
    let mut q: RenderQueue<char> = RenderQueue::new();
    q.add_to_queue(&['a', 'b', 'c', 'd'], &[0, 1, 2, 0, 2, 3], 0, params(1, 1));
    q.add_to_queue(&['e', 'f', 'g'], &[0, 1, 2], 0, params(1, 1));
    assert_eq!(q.len(), 3);
    assert_eq!(q.index_data(), vec![4, 5, 6, 0, 1, 2, 0, 2, 3]);
}

#[test]
fn queue_orders_by_depth_shader_material() {
    let mut q: RenderQueue<u8> = RenderQueue::new();
    q.add_to_queue(&[0, 0, 0], &[0, 1, 2], 5, params(1, 1));
    q.add_to_queue(&[0, 0, 0], &[0, 1, 2], -1, params(9, 9));
    q.add_to_queue(&[0, 0, 0], &[0, 1, 2], 5, params(0, 7));
    q.add_to_queue(&[0, 0, 0], &[0, 1, 2], 5, params(1, 0));
    let keys: Vec<(i32, u64, u64)> = q
        .triangles()
        .iter()
        .map(|t| (t.z_index, t.params.shader, t.params.material))
        .collect();
    assert_eq!(keys, vec![(-1, 9, 9), (5, 0, 7), (5, 1, 0), (5, 1, 1)]);
}

#[test]
fn equal_keys_go_before_earlier_ones() {
    let mut q: RenderQueue<u8> = RenderQueue::new();
    q.add_to_queue(&[0, 0, 0], &[0, 1, 2], 2, params(3, 3));
    q.add_to_queue(&[0, 0, 0], &[0, 1, 2], 2, params(3, 3));
    let first: Vec<[u16; 3]> = q.triangles().iter().map(|t| t.indices).collect();
    assert_eq!(first, vec![[3, 4, 5], [0, 1, 2]]);
}

#[test]
fn clear_empties_queue() {
    let mut q: RenderQueue<u8> = RenderQueue::new();
    q.add_to_queue(&[0, 0, 0], &[0, 1, 2], 0, params(0, 0));
    q.clear();
    assert_eq!(q.len(), 0);
    q.add_to_queue(&[0, 0, 0], &[0, 1, 2], 0, params(0, 0));
    assert_eq!(q.index_data(), vec![0, 1, 2]);
}

#[test]
fn batches_follow_runs_of_params() {
    let mut q: RenderQueue<u8> = RenderQueue::new();
    let v = [0u8; 6];
    q.add_to_queue(&v, &[0, 1, 2, 3, 4, 5], 0, params(1, 1));
    q.add_to_queue(&v, &[0, 1, 2], 0, params(1, 2));
    q.add_to_queue(&v, &[0, 1, 2], 1, params(2, 2));
    let b = q.batches();
    let ranges: Vec<(u32, u32, bool, bool)> =
        b.iter().map(|b| (b.start, b.end, b.set_shader, b.set_material)).collect();
    assert_eq!(
        ranges,
        vec![(0, 6, true, true), (6, 9, false, true), (9, 12, true, false)]
    );
    assert_eq!(b[1].params, params(1, 2));
}

#[test]
fn single_batch_for_equal_params() {
    let mut q: RenderQueue<u8> = RenderQueue::new();
    q.add_to_queue(&[0, 0, 0], &[0, 1, 2, 2, 1, 0], 4, params(5, 6));
    let b = q.batches();
    assert_eq!(b.len(), 1);
    assert_eq!((b[0].start, b[0].end), (0, 6));
}

#[test]
fn contiguous_bindings() {
    assert!(bindings_are_contiguous(&[]));
    assert!(bindings_are_contiguous(&[4]));
    assert!(bindings_are_contiguous(&[0, 1, 2]));
    assert!(!bindings_are_contiguous(&[0, 2]));
    assert!(!bindings_are_contiguous(&[1, 1]));
}

#[test]
fn binding_is_first_position() {
    let list = [TypeId::of::<u8>(), TypeId::of::<u16>(), TypeId::of::<u8>()];
    assert_eq!(binding_of(&list, &TypeId::of::<u16>()), Some(1));
    assert_eq!(binding_of(&list, &TypeId::of::<u8>()), Some(0));
    assert_eq!(binding_of(&list, &TypeId::of::<u32>()), None);
}

#[test]
fn index_bytes_hold_index_data() {
    let mut q: RenderQueue<u8> = RenderQueue::new();
    q.add_to_queue(&[0, 0, 0], &[0, 1, 258], 0, params(0, 0));
    let bytes = q.index_bytes();
    assert_eq!(bytes.len(), 6);
    let back: Vec<u16> = bytes
        .chunks(2)
        .map(|c| u16::from_ne_bytes([c[0], c[1]]))
        .collect();
    assert_eq!(back, q.index_data());
}

#[test]
fn handles_name_identifiers() {
    struct ShaderA;
    impl delphos::Resource for ShaderA {}
    struct MaterialB;
    let mut h = delphos::ParamHandles::new();
    let a = delphos::UntypedResourceId::new::<ShaderA, ()>();
    let b = delphos::UntypedResourceId::new::<ShaderA, MaterialB>();
    assert_eq!(h.handle(a), 0);
    assert_eq!(h.handle(b), 1);
    assert_eq!(h.handle(a), 0);
    assert_eq!(h.handle(b), 1);
}

#[test]
fn materials_sorted_by_binding() {
    let items = vec![(2usize, 'c'), (0, 'a'), (1, 'b'), (0, 'z')];
    let sorted = sort_by_binding(items);
    assert_eq!(sorted, vec![(0, 'a'), (0, 'z'), (1, 'b'), (2, 'c')]);
    assert!(sort_by_binding(Vec::<(usize, u8)>::new()).is_empty());
}
