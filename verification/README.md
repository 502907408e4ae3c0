# FinalEngine

A 3D game engine scaffold whose core logic is a library verified with Verus.

- `src/` is the verified library:
  - `engine_core`: the app lifecycle (created, running, stopped) and the frame clock.
  - `engine_ecs`: the entity world and stable entity identities.
  - `engine_editor`: the editor shell, its panels and modes.
  - `engine_scripting`: the .NET script host configuration and hot reload.
  - `engine_assets`: asset identities and metadata, the asset database, and the
    glTF / GLB importer's byte-level reading: containers, JSON fields,
    accessors, buffers, images, materials, primitives and the scene walk.
  - `engine_render`: renderer configuration and feature negotiation, and the
    decisions the Vulkan backend makes: device, queue family, memory type and
    format choice, swapchain size and image count, present mode, mip chains,
    texture uploads, vertex layout, the frame loop, and the order in which
    test scenes are tried.
- `app/` is the program around the library: the command-line entry point,
  metadata files in RON, glTF files on disk, floating-point geometry, the
  camera, and the Vulkan renderer's window loop and GPU calls.
- `tests/` exercise the library from outside.

The renderer reads its compiled shaders from `shaders/triangle.vert.spv` and
`shaders/triangle.frag.spv` at run time.
