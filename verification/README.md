# Crystal API

A sub-high level wrapper over Vulkan: devices, buffers, textures, layouts,
pipelines, and objects that are dispatched (compute) or drawn and presented
(graphics) each frame.

## Layout

- `src/` is the verified core, written in Verus. It holds the public data
  types (flags, errors, settings, shaders, meshes, objects, pipelines,
  sampler sets) and the decisions of the Vulkan backend: device and queue
  family selection, memory type choice, buffer and descriptor layout
  planning, sampler slot allocation and the registry of where sampler sets
  are registered, what drawing each object binds and draws, swapchain
  parameters, render pass planning, the mip chain's blits and barriers, image
  layout transitions, the order of a presented frame's steps (recreate,
  refresh, wait, acquire, submit compute, submit graphics and present), and
  the frame ring whose semaphores and fences those steps use. Driver handles
  appear there as raw integers; the few Vulkan constants the decisions need
  are read from `ash`, and PNG decoding is done by `png`, behind small
  trusted wrappers.
- `app/` is the unverified shell: the `ash` calls themselves, window surfaces
  (`ash-window`, `raw-window-handle`), the process-wide logging level, typed
  views of mapped memory, and RenderDoc capture through `libloading`, as well
  as the fixed parameters of driver objects (sampler filtering, pipeline
  state, the instance extensions of a debug build). It hands driver reports
  to the library and performs what the library decides.
- `tests/` exercises the library on concrete values.
