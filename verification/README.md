# delphos

The core of a small game engine for Wayland and wgpu, written in Verus.

- `src/` is the verified library: two-dimensional vectors and numeric casts
  (`vec2`, `num`), the entity-component store and its identifiers (`world`,
  `ids`, `table`), the reader/writer bookkeeping of shared values (`rwc`), the
  render queue that keeps triangles sorted by depth, shader and material and
  splits them into draw batches (`render_queue`), material binding order
  (`shader`), frame timing (`time`) and the world of a window (`window`).
- `app/` is the program around it: the Wayland window, the wgpu renderer, the
  typed views of stored values, floating-point math and the demo.
- `tests/` runs the library on concrete values.
