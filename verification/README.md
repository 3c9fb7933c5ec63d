# render_core

The verified core of a small wgpu renderer that draws a grid of textured
cubes, with a free-flying camera and an on-screen statistics window.

- `src/` is the library, proved with Verus:
  - `query`, `pipeline_statistics`, `frame_stats`, `words`: read-back of GPU
    query buffers (bytes copied into words with `bytemuck`), the counters they
    hold, and their text (thousands separators by `num-format`);
  - `surface`: surface format choice, resize bookkeeping, and what a frame
    does with the texture the surface hands out;
  - `input`: camera movement from held keys, key and mouse-button events, and
    the event loop's per-frame decisions;
  - `history`: the bounded window of recent frame times;
  - `layout`: packed vertex buffer layouts of model vertices and instances;
  - `model`: the structure of a loaded model and the draw calls that render it;
  - `grid`: the grid the instances are placed on.
- `app/` is the program around it: window and event loop (winit), GPU work
  (wgpu), model loading (gltf, image), the statistics window (egui), and the
  floating-point camera and transform math (nalgebra).
- `tests/` exercises the library on concrete values.
