//! Core logic of a small Wayland/wgpu game engine: two-dimensional vectors and
//! numeric casts, the entity-component store, read/write borrow bookkeeping,
//! the z-ordered render queue and its batches, and frame timing.

mod ids;
mod num;
mod render_queue;
mod rwc;
mod shader;
mod table;
mod time;
mod vec2;
mod window;
mod world;

pub use ids::{
    lemma_entity_id_ext, lemma_untyped_component_id_ext, lemma_untyped_component_id_of,
    lemma_untyped_resource_id_ext, Component, ComponentId, EntityId, ExTypeId, Resource,
    ResourceId, UntypedComponentId, UntypedResourceId,
};
pub use num::{
    law_cast_from_i16, law_cast_from_i32, law_cast_from_i64, law_cast_from_i8, law_cast_from_isize,
    law_cast_from_u16, law_cast_from_u32, law_cast_from_u64, law_cast_from_u8, law_cast_from_usize,
    Integer, Number, NumberCast, Unsigned,
};
pub use render_queue::{
    batches_of, built_triangle, holds_u16, in_order, insertion_point, lemma_insertion_point, law_built_triangle_indices,
    law_holds_u16_bytes,
    law_handles_identify, law_precedes_by_depth_then_shader_then_material, law_sorted_draw_order, precedes, ParamHandles,
    sorted, Batch, BindParams, RenderQueue, Triangle,
};
pub use rwc::{conflict_of, lemma_rwc_exclusive, lemma_rwc_release_restores, RwcCounter};
pub use shader::{binding_of, bindings_are_contiguous, sort_by_binding, sorted_by_binding};
pub use table::{
    entries_map, has_key, keys_distinct, lemma_entries_map_at, lemma_entries_map_push,
    lemma_entries_map_remove, lemma_entries_map_update, SameKey, Table,
};
pub use time::{law_time_distance, time_distance, FrameStats, Time, REPORT_INTERVAL};
pub use vec2::{
    law_saturate_in_place, law_vec2_add_componentwise, law_vec2_div_componentwise,
    law_vec2_from_parts_in_order, law_vec2_mul_componentwise, law_vec2_neg_componentwise,
    law_vec2_sub_componentwise, lemma_saturate_roundtrip, saturated, unsaturated, ExSaturating, Vec2,
};
pub use window::{mark_configured, DelphosWorld};
pub use world::{
    checked_lookup, law_entities_match_components, law_with_entity, law_read_after_write, law_spawn_fresh,
    with_entity, WorldContainer,
};
