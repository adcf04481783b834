# rey_engine

The verified core of a small Vulkan toon renderer.

`src/` is checked by Verus.  It holds the decisions the renderer takes between
driver calls, each with a contract:

- `memory`: choosing a memory type for an allocation;
- `swapchain`: surface format, present mode, extent and image count;
- `device`: choosing the physical device and its graphics/present queue family;
- `frame`: frame-in-flight pacing (which fence, semaphores and command buffer a frame uses);
- `buffer`, `mesh`: buffer sizes, mesh registration and per-frame draw planning;
- `scene`, `registry`, `snapshot`: the static test scene, the entity-to-mesh
  registry and the per-frame render snapshot;
- `error`: the engine's error types.

Transforms travel through the library as the bit patterns of their `f32`
entries; the floating-point work (camera, projection, physics) and all Vulkan,
window and FFI calls live in `app/`, the executable, which feeds the library
plain values and carries out what it decides.
