# gpui3d

The verified core of a kit that puts a 3D engine behind a GPUI window: one GPU device for the
window and the engine, no copies, and a chrome that is never redrawn for a 3D frame.

`src/` is written in Verus. Every function states what it returns, and Verus proves it, with one
exception: ten small private functions call other crates (ash, bytemuck, naga, wgpu), and Verus
believes what they state of those calls. Each is marked `external_body`, and its comment says what
it claims. `src/` holds what the engines and the windows decide:

- `camera`, `gesture`, `scalar`: the orbit camera, what a drag does to it, and the order of
  floating-point numbers by their bits;
- `adapter`, `chrome`: which GPU to run on, and on which terms a window starts its engine;
- `renderer`, `frames`, `target`, `turns`, `pacing`: the frames of a renderer step by step for each
  graphics API, the frames in flight, what depends on the size of the surface, the turns of the
  render thread, and their rhythm;
- `mesh`, `instance`, `pipeline`, `bytes`, `shader`, `spirv`, `memory`, `vulkan`, `dx12`, `opengl`:
  what goes to the GPU, and how it is set up;
- `model`, `engine`, `cache`, `text`, `bench`: the scene editor and the scrolling benchmark.

Functions whose names start with `law_` state what holds of several functions together.

`app/` is ordinary Rust: the windows, the threads, the calls into the graphics APIs, and the
floating-point work. `tests/` runs the library.
