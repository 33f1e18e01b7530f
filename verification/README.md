# line_sdf

A thick-line renderer: every line segment is drawn as one instance of a unit
quad, which the vertex stage stretches around the segment and the fragment
stage trims to the pixels within the segment's radius.

`src/` is the verified library (Verus):

- `frame.rs`: the renderer's state and the event-loop decisions: which window
  events resize the surface, when to draw, redraw, report or stop, and what a
  failed frame leads to; with the laws those decisions keep.
- `geometry.rs`: the quad's corners and index list, and the index buffer's bytes.
- `layout.rs`: `#[repr(C)]` struct layout of the uploaded structs and the
  vertex-buffer layouts of the pipeline.
- `surface.rs`: the surface configuration picked from the surface's capabilities.

`app/` is the program around it: the window and event loop (winit), the GPU
(wgpu), the `f32` data, and the WGSL shader.
