# manifold

Input handling and scene bookkeeping of a wgpu renderer that draws slices of
four-dimensional shapes, verified with Verus.

- `src/` — the verified library: key state of the camera controller and the
  movement it asks for (`camera`), w-slice key control and shape codes
  (`hypershape`), dispatch of window and keyboard events (`event_handler`),
  the scene's object list (`object`), and the choice of bind group layouts and
  pipeline per shader (`pipeline`), and the frame's response to a failed
  surface acquisition (`renderer`). Each module but `input`, which only
  declares the key types, ends with the laws proved of it.
- `tests/` — the library's tests on concrete values.
- `app/` — the GPU and window side: wgpu buffers and bind groups, cgmath
  floating-point camera and transform maths, and the conversion of winit
  events into the library's `KeyInput` and `WindowInput`, carrying out the
  library's event and frame decisions.
