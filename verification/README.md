# no_graphics_api

The decisions behind a small, explicit Vulkan 1.4 graphics API, verified with Verus,
and a program that carries them out on a driver.

The library computes and checks; it makes no driver calls. A function says what the
driver is to do, as plain values in Vulkan's numbers, and later functions take in what
the driver replied. Refused requests are answered with a `GpuError`, and every contract
says which request gets which answer.

| Module | What it decides |
| --- | --- |
| `device`, `state` | requirements, device selection, enabled features, descriptor layout |
| `swapchain` | drawable size, rebuilding, acquiring frames in two slots |
| `command` | the life of command buffers, submission, presentation |
| `recording` | barriers, copies, render passes, draws, dispatches, timestamps |
| `heap`, `texture`, `texture_copy` | buffer ranges, image shapes, views, descriptors, pitched copies |
| `pipeline` | raster and compute pipeline state |
| `simple_ttf` | TrueType tables, character maps, simple and composite outlines |
| `glyph_raster` | curves of a glyph, its placement in an atlas, bytes for the shader |
| `frame_loop` | what follows of a frame |
| `float_bits` | single-precision numbers by their bit patterns |
| `vulkan` | what is taken from the `ash` bindings on trust |

`app/` owns the window, the Vulkan objects and all floating-point arithmetic. It reads
its shaders from `shaders/triangle.vert.spv` and `shaders/triangle.frag.spv`, and takes
`--validation`, `--resize-test` and `--frames <count>`.
