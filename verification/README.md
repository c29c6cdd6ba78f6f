# camera_scene

The decision logic of a small wgpu scene, verified with Verus:

- `src/input.rs` — the keys and directions the controllers read, and the
  held-set update that every key event performs.
- `src/camera.rs` — the free-look controller's held keys and the signed
  movement they ask for.
- `src/orbit.rs` — the orbiting controller's pressed keys.
- `src/surface.rs` — the window surface's size and configuration, what to do
  with each result of acquiring a frame, and the choice of surface format.
- `src/events.rs` — what the event loop does with each window event.
- `src/instances.rs` — the grid of instances and the layout of the
  per-instance buffer.

`app/` is the program around it: the window, the GPU, and the camera maths,
which is all `f32` arithmetic through cgmath.
