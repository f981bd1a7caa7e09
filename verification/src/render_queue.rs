use vstd::prelude::*;

use crate::ids::UntypedResourceId;
use crate::table::Table;

verus! {

/// What a triangle is drawn with: the handles of its shader and of its
/// material bind group. The queue orders and groups triangles by them.
#[derive(Clone, Copy, Debug, PartialEq, Eq, Structural)]
pub struct BindParams {
    pub shader: u64,
    pub material: u64,
}

/// Gives each shader or material resource identifier a handle that stands
/// for it in bind parameters: the first identifier asked for gets 0, the
/// next new one 1, and so on; an identifier asked for again gets its handle back.
pub struct ParamHandles {
    handles: Table<UntypedResourceId, u64>,
    next: u64,
}

impl ParamHandles {
    /// The handle of every identifier asked for so far.
    pub closed spec fn handle_map(&self) -> Map<UntypedResourceId, u64> {
        self.handles.map()
    }

    /// The handle the next new identifier gets.
    pub closed spec fn next_handle(&self) -> u64 {
        self.next
    }

    /// Handles are below the next one and no two identifiers share one.
    pub open spec fn wf(&self) -> bool {
        &&& self.table_wf()
        &&& forall|id: UntypedResourceId| #[trigger] self.handle_map().contains_key(id)
            ==> self.handle_map()[id] < self.next_handle()
        &&& forall|a: UntypedResourceId, b: UntypedResourceId|
            #[trigger] self.handle_map().contains_key(a) && #[trigger] self.handle_map().contains_key(b)
                && a != b ==> self.handle_map()[a] != self.handle_map()[b]
    }

    /// The table behind the handles keeps its keys distinct.
    pub closed spec fn table_wf(&self) -> bool {
        self.handles.wf()
    }

    /// No identifier has a handle yet.
    pub fn new() -> (r: Self)
        ensures
            r.wf(),
            r.handle_map() == Map::<UntypedResourceId, u64>::empty(),
            r.next_handle() == 0,
    {
        ParamHandles { handles: Table::new(), next: 0 }
    }

    /// The handle the next new identifier gets.
    pub fn next_handle_value(&self) -> (r: u64)
        ensures
            r == self.next_handle(),
    {
        self.next
    }

    /// The handle of `id`, given out now if `id` has none yet.
    pub fn handle(&mut self, id: UntypedResourceId) -> (r: u64)
        requires
            old(self).wf(),
            old(self).next_handle() < u64::MAX,
        ensures
            final(self).wf(),
            old(self).handle_map().contains_key(id) ==> r == old(self).handle_map()[id],
            old(self).handle_map().contains_key(id) ==> final(self).handle_map() == old(self).handle_map(),
            old(self).handle_map().contains_key(id) ==> final(self).next_handle() == old(self).next_handle(),
            !old(self).handle_map().contains_key(id) ==> r == old(self).next_handle(),
            !old(self).handle_map().contains_key(id) ==> final(self).handle_map() == old(self).handle_map().insert(id, r),
            !old(self).handle_map().contains_key(id) ==> final(self).next_handle() == old(self).next_handle() + 1,
    {
        match self.handles.get(&id) {
            Some(h) => *h,
            None => {
                let ghost before = self.handle_map();
                let ghost old_next = self.next;
                let h = self.next;
                self.handles.insert(id, h);
                self.next = self.next + 1;
                assert forall|a: UntypedResourceId| #[trigger] self.handle_map().contains_key(a) implies self.handle_map()[a]
                    < self.next_handle() by {
                    if a != id {
                        assert(before.contains_key(a));
                    }
                }
                assert forall|a: UntypedResourceId, b: UntypedResourceId|
                    #[trigger] self.handle_map().contains_key(a) && #[trigger] self.handle_map().contains_key(b)
                        && a != b implies self.handle_map()[a] != self.handle_map()[b] by {
                    if a != id && b != id {
                        assert(before.contains_key(a) && before.contains_key(b));
                    } else if a == id {
                        assert(before.contains_key(b) && before[b] < old_next);
                    } else {
                        assert(before.contains_key(a) && before[a] < old_next);
                    }
                }
                h
            },
        }
    }
}

impl Default for ParamHandles {
    fn default() -> (r: Self)
        ensures
            r.wf(),
            r.handle_map() == Map::<UntypedResourceId, u64>::empty(),
            r.next_handle() == 0,
    {
        ParamHandles::new()
    }
}

/// Two identifiers get the same handle exactly when they are the same
/// identifier.
pub proof fn law_handles_identify(h: ParamHandles, a: UntypedResourceId, b: UntypedResourceId)
    requires
        h.wf(),
        h.handle_map().contains_key(a),
        h.handle_map().contains_key(b),
    ensures
        (h.handle_map()[a] == h.handle_map()[b]) <==> a == b,
{
}

/// One queued triangle: three indices into the queued vertices, its depth
/// layer and what it is drawn with.
#[derive(Clone, Copy, Debug)]
pub struct Triangle {
    pub indices: [u16; 3],
    pub z_index: i32,
    pub params: BindParams,
}

/// `t` sorts strictly before the key `(z_index, params.shader, params.material)`,
/// comparing the three parts lexicographically.
pub open spec fn precedes(t: Triangle, z_index: i32, params: BindParams) -> bool {
    ||| t.z_index < z_index
    ||| t.z_index == z_index && t.params.shader < params.shader
    ||| t.z_index == z_index && t.params.shader == params.shader && t.params.material
        < params.material
}

/// The key of `a` is at most the key of `b`.
pub open spec fn in_order(a: Triangle, b: Triangle) -> bool {
    !precedes(b, a.z_index, a.params)
}

/// The triangles are sorted by key, ties in any order.
pub open spec fn sorted(s: Seq<Triangle>) -> bool {
    forall|i: int, j: int| 0 <= i < j < s.len() ==> #[trigger] in_order(s[i], s[j])
}

/// The length of the longest prefix of `s` whose triangles all sort strictly
/// before the key: where a triangle with that key is inserted.
pub open spec fn insertion_point(s: Seq<Triangle>, z_index: i32, params: BindParams) -> nat
    decreases s.len(),
{
    if s.len() == 0 {
        0
    } else if precedes(s[0], z_index, params) {
        1 + insertion_point(s.drop_first(), z_index, params)
    } else {
        0
    }
}

/// The triangle built from the `j`-th group of three indices, each moved by
/// `offset`, with the given depth and bind parameters.
pub open spec fn built_triangle(
    t: Triangle,
    indices: Seq<u16>,
    offset: u16,
    j: int,
    z_index: i32,
    params: BindParams,
) -> bool {
    &&& t.indices@ == seq![
        (indices[3 * j] + offset) as u16,
        (indices[3 * j + 1] + offset) as u16,
        (indices[3 * j + 2] + offset) as u16,
    ]
    &&& t.z_index == z_index
    &&& t.params == params
}

/// A contiguous range of the index buffer drawn with one set of bind
/// parameters, and whether the shader and the material must be bound anew
/// before drawing it.
#[derive(Clone, Copy, Debug)]
pub struct Batch {
    pub start: u32,
    pub end: u32,
    pub params: BindParams,
    pub set_shader: bool,
    pub set_material: bool,
}

/// `b` is the batch list of `tris`: maximal runs of consecutive triangles with
/// equal bind parameters, in order, covering the index buffer `0 .. 3 * len`;
/// the first batch binds both shader and material, each later one binds what
/// differs from the batch before it.
pub open spec fn batches_of(tris: Seq<Triangle>, b: Seq<Batch>) -> bool {
    &&& (b.len() == 0 <==> tris.len() == 0)
    &&& tris.len() > 0 ==> b[0].start == 0 && b[b.len() - 1].end == 3 * tris.len()
    &&& forall|k: int| 0 <= k < b.len() ==> (#[trigger] b[k]).start < b[k].end
    &&& forall|k: int| 0 <= k < b.len() ==> (#[trigger] b[k]).start % 3 == 0 && b[k].end % 3 == 0
    &&& forall|k: int| 0 < k < b.len() ==> (#[trigger] b[k]).start == b[k - 1].end
    &&& forall|k: int, i: int|
        0 <= k < b.len() && 0 <= i < tris.len() && b[k].start <= 3 * i < b[k].end
            ==> #[trigger] tris[i].params == (#[trigger] b[k]).params
    &&& forall|k: int| 0 < k < b.len() ==> (#[trigger] b[k]).params != b[k - 1].params
    &&& b.len() > 0 ==> b[0].set_shader && b[0].set_material
    &&& forall|k: int|
        0 < k < b.len() ==> (#[trigger] b[k]).set_shader == (b[k].params.shader != b[k
            - 1].params.shader) && b[k].set_material == (b[k].params.material != b[k
            - 1].params.material)
}

/// A sequence that stops at the first triangle not sorting before the key has
/// that position as its insertion point.
pub proof fn lemma_insertion_point(s: Seq<Triangle>, z_index: i32, params: BindParams, i: int)
    requires
        0 <= i <= s.len(),
        forall|j: int| 0 <= j < i ==> precedes(#[trigger] s[j], z_index, params),
        i < s.len() ==> !precedes(s[i], z_index, params),
    ensures
        insertion_point(s, z_index, params) == i,
    decreases i,
{
    if i > 0 {
        assert(precedes(s[0], z_index, params));
        let t = s.drop_first();
        assert forall|j: int| 0 <= j < i - 1 implies precedes(#[trigger] t[j], z_index, params) by {
            assert(t[j] == s[j + 1]);
        }
        if i - 1 < t.len() {
            assert(t[i - 1] == s[i]);
        }
        lemma_insertion_point(t, z_index, params, i - 1);
    }
}

/// Depth decides first, compared as signed integers: a triangle at a smaller
/// depth sorts before any key at a larger depth, and one at a larger depth
/// never does; at equal depth the shader handle decides, then the material
/// handle, and a triangle never sorts before its own key.
pub proof fn law_precedes_by_depth_then_shader_then_material(t: Triangle, z_index: i32, params: BindParams)
    ensures
        t.z_index < z_index ==> precedes(t, z_index, params),
        t.z_index > z_index ==> !precedes(t, z_index, params),
        t.z_index == z_index && t.params.shader < params.shader ==> precedes(t, z_index, params),
        t.z_index == z_index && t.params.shader > params.shader ==> !precedes(t, z_index, params),
        t.z_index == z_index && t.params.shader == params.shader ==> (precedes(t, z_index, params)
            <==> t.params.material < params.material),
        !precedes(t, t.z_index, t.params),
{
}

/// In a sorted queue depths never decrease along the drawing order; among
/// equal depths shader handles never decrease, and among equal depths and
/// shaders material handles never decrease.
pub proof fn law_sorted_draw_order(s: Seq<Triangle>, i: int, j: int)
    requires
        sorted(s),
        0 <= i < j < s.len(),
    ensures
        s[i].z_index <= s[j].z_index,
        s[i].z_index == s[j].z_index ==> s[i].params.shader <= s[j].params.shader,
        s[i].z_index == s[j].z_index && s[i].params.shader == s[j].params.shader
            ==> s[i].params.material <= s[j].params.material,
{
    assert(in_order(s[i], s[j]));
}

/// A built triangle holds the `j`-th group of three indices, each raised by
/// exactly `offset`, with the given depth and bind parameters.
pub proof fn law_built_triangle_indices(
    t: Triangle,
    indices: Seq<u16>,
    offset: u16,
    j: int,
    z_index: i32,
    params: BindParams,
)
    requires
        built_triangle(t, indices, offset, j, z_index, params),
        0 <= j,
        3 * j + 2 < indices.len(),
        indices[3 * j] + offset <= u16::MAX,
        indices[3 * j + 1] + offset <= u16::MAX,
        indices[3 * j + 2] + offset <= u16::MAX,
    ensures
        t.indices@.len() == 3,
        t.indices@[0] == indices[3 * j] + offset,
        t.indices@[1] == indices[3 * j + 1] + offset,
        t.indices@[2] == indices[3 * j + 2] + offset,
        t.z_index == z_index,
        t.params == params,
{
}

impl<V> Default for RenderQueue<V> {
    fn default() -> (r: Self)
        ensures
            r.wf(),
            r.vertex_seq() == Seq::<V>::empty(),
            r.triangle_seq() == Seq::<Triangle>::empty(),
    {
        RenderQueue::new()
    }
}

/// The two bytes at `2 * i` and `2 * i + 1` hold `v` with the less
/// significant byte first (`little`) or last.
pub open spec fn holds_u16(bytes: Seq<u8>, i: int, v: u16, little: bool) -> bool {
    if little {
        bytes[2 * i] + 256 * bytes[2 * i + 1] == v
    } else {
        bytes[2 * i + 1] + 256 * bytes[2 * i] == v
    }
}

/// Two bytes hold a value exactly when one is its low byte (`v % 256`) and
/// the other its high byte (`v / 256`): the low one first when `little`.
pub proof fn law_holds_u16_bytes(bytes: Seq<u8>, i: int, v: u16, little: bool)
    requires
        0 <= 2 * i,
        2 * i + 1 < bytes.len(),
    ensures
        holds_u16(bytes, i, v, little) <==> (if little {
            bytes[2 * i] == v % 256 && bytes[2 * i + 1] == v / 256
        } else {
            bytes[2 * i + 1] == v % 256 && bytes[2 * i] == v / 256
        }),
{
    let lo: int = if little { bytes[2 * i] as int } else { bytes[2 * i + 1] as int };
    let hi: int = if little { bytes[2 * i + 1] as int } else { bytes[2 * i] as int };
    let w: int = v as int;
    assert(0 <= lo < 256 && 0 <= hi < 256);
    assert(lo + 256 * hi == w <==> (lo == w % 256 && hi == w / 256)) by (nonlinear_arith)
        requires
            0 <= lo < 256,
            0 <= hi < 256,
            0 <= w,
    ;
}

/// `bytemuck::cast_slice` from `u16` to `u8`, copied into a vector: the
/// memory of the values read as bytes, two per value, both bytes of every
/// value in the machine's byte order. Which order that is is not stated.
#[verifier::external_body]
fn u16s_as_bytes(values: &[u16]) -> (r: Vec<u8>)
    ensures
        r@.len() == 2 * values@.len(),
        (forall|i: int| 0 <= i < values@.len() ==> holds_u16(r@, i, #[trigger] values@[i], true))
            || (forall|i: int| 0 <= i < values@.len() ==> holds_u16(r@, i, #[trigger] values@[i], false)),
{
    bytemuck::cast_slice::<u16, u8>(values).to_vec()
}

/// Triangles to draw, kept sorted by depth, then shader, then material, with
/// the vertices they index.
pub struct RenderQueue<V> {
    vertices: Vec<V>,
    triangles: Vec<Triangle>,
}

impl<V> RenderQueue<V> {
    /// The queued vertices, in the order they were added.
    pub closed spec fn vertex_seq(&self) -> Seq<V> {
        self.vertices@
    }

    /// The queued triangles, in drawing order.
    pub closed spec fn triangle_seq(&self) -> Seq<Triangle> {
        self.triangles@
    }

    /// The queue's invariant: its triangles are sorted by key.
    pub open spec fn wf(&self) -> bool {
        sorted(self.triangle_seq())
    }

    /// An empty queue.
    pub fn new() -> (r: Self)
        ensures
            r.wf(),
            r.vertex_seq() == Seq::<V>::empty(),
            r.triangle_seq() == Seq::<Triangle>::empty(),
    {
        RenderQueue { vertices: Vec::new(), triangles: Vec::new() }
    }

    /// The queued vertices, in the order they were added.
    pub fn vertices(&self) -> (r: &[V])
        ensures
            r@ == self.vertex_seq(),
    {
        self.vertices.as_slice()
    }

    /// The number of queued triangles.
    pub fn len(&self) -> (r: usize)
        ensures
            r == self.triangle_seq().len(),
    {
        self.triangles.len()
    }

    /// The queued triangles, in drawing order.
    pub fn triangles(&self) -> (r: &[Triangle])
        ensures
            r@ == self.triangle_seq(),
    {
        self.triangles.as_slice()
    }

    /// Empties the queue of vertices and triangles.
    pub fn clear(&mut self)
        ensures
            final(self).wf(),
            final(self).vertex_seq() == Seq::<V>::empty(),
            final(self).triangle_seq() == Seq::<Triangle>::empty(),
    {
        self.vertices.clear();
        self.triangles.clear();
    }

    /// The number of queued vertices.
    pub fn vertex_count(&self) -> (r: usize)
        ensures
            r == self.vertex_seq().len(),
    {
        self.vertices.len()
    }

    /// Whether `t` sorts strictly before the key `(z_index, params)`.
    fn sorts_before(t: &Triangle, z_index: i32, params: BindParams) -> (r: bool)
        ensures
            r == precedes(*t, z_index, params),
    {
        if t.z_index != z_index {
            t.z_index < z_index
        } else if t.params.shader != params.shader {
            t.params.shader < params.shader
        } else {
            t.params.material < params.material
        }
    }

    /// The first position whose triangle does not sort before the key, found
    /// by binary search over the sorted triangles.
    fn partition_point(&self, z_index: i32, params: BindParams) -> (r: usize)
        requires
            self.wf(),
        ensures
            r <= self.triangle_seq().len(),
            forall|j: int| 0 <= j < r ==> precedes(#[trigger] self.triangle_seq()[j], z_index, params),
            forall|j: int|
                r <= j < self.triangle_seq().len() ==> !precedes(
                    #[trigger] self.triangle_seq()[j],
                    z_index,
                    params,
                ),
    {
        let ghost s = self.triangles@;
        let mut lo: usize = 0;
        let mut hi: usize = self.triangles.len();
        while lo < hi
            invariant
                s == self.triangles@,
                sorted(s),
                lo <= hi <= s.len(),
                forall|j: int| 0 <= j < lo ==> precedes(#[trigger] s[j], z_index, params),
                forall|j: int| hi <= j < s.len() ==> !precedes(#[trigger] s[j], z_index, params),
            decreases hi - lo,
        {
            let mid = lo + (hi - lo) / 2;
            if Self::sorts_before(&self.triangles[mid], z_index, params) {
                assert forall|j: int| 0 <= j <= mid implies precedes(
                    #[trigger] s[j],
                    z_index,
                    params,
                ) by {
                    if j < mid {
                        assert(in_order(s[j], s[mid as int]));
                    }
                }
                lo = mid + 1;
            } else {
                assert forall|j: int| mid <= j < s.len() implies !precedes(
                    #[trigger] s[j],
                    z_index,
                    params,
                ) by {
                    if j > mid {
                        assert(in_order(s[mid as int], s[j]));
                    }
                }
                hi = mid;
            }
        }
        lo
    }

    /// Queues the vertices, and one triangle per three indices, each index
    /// moved past the vertices already queued. The new triangles go where
    /// their key `(z_index, params)` keeps the queue sorted: after every
    /// triangle with a smaller key and before those with an equal or greater one.
    pub fn add_to_queue(&mut self, vertices: &[V], indices: &[u16], z_index: i32, params: BindParams)
        where V: Copy,
        requires
            old(self).wf(),
            indices@.len() % 3 == 0,
            forall|k: int|
                0 <= k < indices@.len() ==> #[trigger] indices@[k] + (old(self).vertex_seq().len() as u16)
                    <= u16::MAX,
        ensures
            final(self).wf(),
            final(self).vertex_seq() == old(self).vertex_seq() + vertices@,
            ({
                let before = old(self).triangle_seq();
                let after = final(self).triangle_seq();
                let at = insertion_point(before, z_index, params) as int;
                let n = indices@.len() / 3;
                forall|j: int, k: int|
                    0 <= j < n && 0 <= k < 3 ==> #[trigger] after[at + j].indices@[k] == indices@[3 * j + k]
                        + old(self).vertex_seq().len() % 65536
            }),
            ({
                let before = old(self).triangle_seq();
                let after = final(self).triangle_seq();
                let at = insertion_point(before, z_index, params) as int;
                let n = indices@.len() / 3;
                &&& after.len() == before.len() + n
                &&& after.take(at) == before.take(at)
                &&& after.skip(at + n) == before.skip(at)
                &&& forall|j: int|
                    0 <= j < n ==> built_triangle(
                        #[trigger] after[at + j],
                        indices@,
                        old(self).vertex_seq().len() as u16,
                        j,
                        z_index,
                        params,
                    )
            }),
    {
        let ghost before = self.triangles@;
        let ghost old_vertices = self.vertices@;
        let count = self.vertices.len();
        let offset = count as u16;
        assert(offset == count % 65536) by (bit_vector)
            requires
                offset == count as u16,
        ;

        let mut i: usize = 0;
        while i < vertices.len()
            invariant
                i <= vertices@.len(),
                self.vertices@ == old_vertices + vertices@.take(i as int),
                self.triangles@ == before,
            decreases vertices@.len() - i,
        {
            self.vertices.push(vertices[i]);
            assert(vertices@.take(i + 1) == vertices@.take(i as int).push(vertices@[i as int]));
            i = i + 1;
        }
        assert(vertices@.take(vertices@.len() as int) == vertices@);

        let at = self.partition_point(z_index, params);
        proof {
            lemma_insertion_point(before, z_index, params, at as int);
        }
        let mut right = self.triangles.split_off(at);

        let n = indices.len() / 3;
        assert(3 * n == indices@.len()) by (nonlinear_arith)
            requires
                n == indices@.len() / 3,
                indices@.len() % 3 == 0,
        ;
        let mut j: usize = 0;
        while j < n
            invariant
                3 * n == indices@.len(),
                indices@.len() == indices.len(),
                j <= n,
                self.vertices@ == old_vertices + vertices@,
                at <= before.len(),
                right@ == before.subrange(at as int, before.len() as int),
                self.triangles@.len() == at + j,
                self.triangles@.take(at as int) == before.take(at as int),
                forall|k: int| 0 <= k < at ==> precedes(#[trigger] before[k], z_index, params),
                forall|k: int| at <= k < before.len() ==> !precedes(#[trigger] before[k], z_index, params),
                forall|k: int|
                    0 <= k < j ==> built_triangle(
                        #[trigger] self.triangles@[at + k],
                        indices@,
                        offset,
                        k,
                        z_index,
                        params,
                    ),
                forall|k: int|
                    0 <= k < indices@.len() ==> #[trigger] indices@[k] + offset <= u16::MAX,
            decreases n - j,
        {
            assert(3 * j + 2 < indices@.len());
            let a = indices[3 * j] + offset;
            let b = indices[3 * j + 1] + offset;
            let c = indices[3 * j + 2] + offset;
            let t = Triangle { indices: [a, b, c], z_index, params };
            self.triangles.push(t);
            assert(self.triangles@.take(at as int) == before.take(at as int));
            j = j + 1;
        }
        let ghost middle = self.triangles@;
        self.triangles.append(&mut right);

        proof {
            let after = self.triangles@;
            assert(after.take(at as int) == before.take(at as int));
            assert(after.skip(at + n) == before.skip(at as int));
            assert forall|k: int| 0 <= k < at implies after[k] == before[k] by {
                assert(after.take(at as int)[k] == before.take(at as int)[k]);
            }
            assert forall|k: int| at + n <= k < after.len() implies after[k] == before[k - n] by {
                assert(after.skip(at + n)[k - at - n] == before.skip(at as int)[k - at - n]);
            }
            assert forall|p: int, q: int| 0 <= p < q < after.len() implies #[trigger] in_order(
                after[p],
                after[q],
            ) by {
                if q < at {
                    assert(after[p] == before[p] && after[q] == before[q]);
                    assert(in_order(before[p], before[q]));
                } else if p >= at + n {
                    assert(after[p] == before[p - n] && after[q] == before[q - n]);
                    assert(in_order(before[p - n], before[q - n]));
                } else if p < at && q < at + n {
                    assert(after[p] == before[p]);
                    assert(precedes(before[p], z_index, params));
                    assert(built_triangle(after[at + (q - at)], indices@, offset, q - at, z_index, params));
                } else if p < at {
                    assert(after[p] == before[p] && after[q] == before[q - n]);
                    assert(precedes(before[p], z_index, params));
                    assert(!precedes(before[q - n], z_index, params));
                } else if q < at + n {
                    assert(built_triangle(after[at + (p - at)], indices@, offset, p - at, z_index, params));
                    assert(built_triangle(after[at + (q - at)], indices@, offset, q - at, z_index, params));
                } else {
                    assert(built_triangle(after[at + (p - at)], indices@, offset, p - at, z_index, params));
                    assert(after[q] == before[q - n]);
                    assert(!precedes(before[q - n], z_index, params));
                }
            }
            assert forall|k: int| 0 <= k < n implies built_triangle(
                #[trigger] after[at + k],
                indices@,
                offset,
                k,
                z_index,
                params,
            ) by {
                assert(after[at + k] == middle[at + k]);
            }
            assert forall|j: int, k: int| 0 <= j < n && 0 <= k < 3 implies #[trigger] after[at
                + j].indices@[k] == indices@[3 * j + k] + offset by {
                assert(built_triangle(after[at + j], indices@, offset, j, z_index, params));
                assert(3 * j + k < indices@.len());
                assert(indices@[3 * j + k] + offset <= u16::MAX);
            }
        }
    }

    /// The index buffer: the three indices of each triangle, in drawing order.
    pub fn index_data(&self) -> (r: Vec<u16>)
        ensures
            r@.len() == 3 * self.triangle_seq().len(),
            forall|i: int, k: int|
                0 <= i < self.triangle_seq().len() && 0 <= k < 3 ==> r@[3 * i + k]
                    == #[trigger] self.triangle_seq()[i].indices@[k],
    {
        let mut r: Vec<u16> = Vec::new();
        let mut i: usize = 0;
        while i < self.triangles.len()
            invariant
                i <= self.triangles@.len(),
                r@.len() == 3 * i,
                forall|p: int, k: int|
                    0 <= p < i && 0 <= k < 3 ==> r@[3 * p + k]
                        == #[trigger] self.triangles@[p].indices@[k],
            decreases self.triangles@.len() - i,
        {
            let t = &self.triangles[i];
            r.push(t.indices[0]);
            r.push(t.indices[1]);
            r.push(t.indices[2]);
            i = i + 1;
        }
        r
    }

    /// The index buffer as the bytes that are uploaded: the indices of
    /// `index_data`, two bytes each, all in the machine's byte order.
    pub fn index_bytes(&self) -> (r: Vec<u8>)
        ensures
            r@.len() == 6 * self.triangle_seq().len(),
            ({
                let t = self.triangle_seq();
                ||| forall|i: int, k: int|
                    0 <= i < t.len() && 0 <= k < 3 ==> holds_u16(r@, 3 * i + k, #[trigger] t[i].indices@[k], true)
                ||| forall|i: int, k: int|
                    0 <= i < t.len() && 0 <= k < 3 ==> holds_u16(r@, 3 * i + k, #[trigger] t[i].indices@[k], false)
            }),
    {
        let indices = self.index_data();
        let r = u16s_as_bytes(indices.as_slice());
        proof {
            let t = self.triangle_seq();
            let little = forall|j: int| 0 <= j < indices@.len() ==> holds_u16(r@, j, #[trigger] indices@[j], true);
            if little {
                assert forall|i: int, k: int| 0 <= i < t.len() && 0 <= k < 3 implies holds_u16(
                    r@, 3 * i + k, #[trigger] t[i].indices@[k], true) by {
                    assert(indices@[3 * i + k] == t[i].indices@[k]);
                }
            } else {
                assert forall|i: int, k: int| 0 <= i < t.len() && 0 <= k < 3 implies holds_u16(
                    r@, 3 * i + k, #[trigger] t[i].indices@[k], false) by {
                    assert(indices@[3 * i + k] == t[i].indices@[k]);
                }
            }
        }
        r
    }

    /// Splits the drawing order into batches: one per maximal run of
    /// consecutive triangles with equal bind parameters, over the index
    /// buffer that `index_data` produces.
    pub fn batches(&self) -> (r: Vec<Batch>)
        requires
            3 * self.triangle_seq().len() <= u32::MAX,
        ensures
            batches_of(self.triangle_seq(), r@),
    {
        let n = self.triangles.len();
        let mut r: Vec<Batch> = Vec::new();
        if n == 0 {
            return r;
        }
        let ghost tris = self.triangles@;
        let mut current = self.triangles[0].params;
        let mut set_shader = true;
        let mut set_material = true;
        let mut batch_start: u32 = 0;
        let mut offset: u32 = 3;
        let mut i: usize = 1;
        while i < n
            invariant
                tris == self.triangles@,
                n == tris.len(),
                3 * n <= u32::MAX,
                1 <= i <= n,
                offset == 3 * i,
                batch_start < offset,
                batch_start % 3 == 0,
                r@.len() == 0 ==> batch_start == 0 && set_shader && set_material,
                r@.len() > 0 ==> r@[r@.len() - 1].end == batch_start,
                r@.len() > 0 ==> current != r@[r@.len() - 1].params,
                r@.len() > 0 ==> set_shader == (current.shader != r@[r@.len() - 1].params.shader)
                    && set_material == (current.material != r@[r@.len() - 1].params.material),
                forall|p: int| batch_start <= 3 * p < offset ==> #[trigger] tris[p].params == current,
                r@.len() > 0 ==> r@[0].start == 0,
                forall|k: int| 0 <= k < r@.len() ==> (#[trigger] r@[k]).start < r@[k].end,
                forall|k: int| 0 <= k < r@.len() ==> (#[trigger] r@[k]).start % 3 == 0 && r@[k].end % 3 == 0,
                forall|k: int| 0 < k < r@.len() ==> (#[trigger] r@[k]).start == r@[k - 1].end,
                forall|k: int, p: int|
                    0 <= k < r@.len() && 0 <= p < tris.len() && r@[k].start <= 3 * p < r@[k].end
                        ==> #[trigger] tris[p].params == (#[trigger] r@[k]).params,
                forall|k: int| 0 < k < r@.len() ==> (#[trigger] r@[k]).params != r@[k - 1].params,
                r@.len() > 0 ==> r@[0].set_shader && r@[0].set_material,
                forall|k: int|
                    0 < k < r@.len() ==> (#[trigger] r@[k]).set_shader == (r@[k].params.shader
                        != r@[k - 1].params.shader) && r@[k].set_material == (r@[k].params.material
                        != r@[k - 1].params.material),
            decreases n - i,
        {
            let next = self.triangles[i].params;
            if next != current {
                let batch = Batch { start: batch_start, end: offset, params: current, set_shader, set_material };
                r.push(batch);
                set_shader = next.shader != current.shader;
                set_material = next.material != current.material;
                current = next;
                batch_start = offset;
            }
            offset = offset + 3;
            i = i + 1;
        }
        let batch = Batch { start: batch_start, end: offset, params: current, set_shader, set_material };
        r.push(batch);
        r
    }
}

} // verus!
