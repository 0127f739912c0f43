# game_engine

A small windowed game engine, verified with Verus.

- `src/` is the verified library: the keyboard state (`input`), the window
  events it reacts to (`event`), the surface's size and configuration
  (`state`), the decisions of the event loop (`control`), the queue of draw
  commands and the render-pass calls that draw them (`render`), and the demo
  game (`game`).
- `app/` is the program around it: the window (winit), the GPU (wgpu), the
  clock, and the event loop that carries out the library's decisions.
- `tests/` runs the library on concrete values.
