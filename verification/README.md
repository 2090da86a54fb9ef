# veloren

The client-side and world-generation logic of a voxel game, with its
behaviour stated in contracts and proved with Verus.

- `src/world` places towns, pyramids, forests and rocks on jittered grids
  (`structure`, `town`), caches generator outputs (`cachegen`) and builds
  chunks from a block sampler (`chunk`). The town layer reads the terrain
  through two sampler closures that the program hands it.
- `src/voxel` holds blocks and voxel volumes, reads `.vox` models and turns
  volumes into meshes shaded by ambient occlusion (`mesh`, `mesher`), kept
  per kind of material in an insertion-ordered `indexmap` map.
- `src/ui`, `src/controls` and `src/keybinds` hold the heads-up display and
  chat, the translation of input events, and the key bindings.
- `src/genfn` composes small generator functions.
- `src/shader` expands a shader's source against the utility sources held
  in a `glsl_include` context; `src/build_info` reads what the build recorded.
- `app/` is the program around the library: prompts, files, noise-based
  terrain, shader expansion and the float geometry handed to a renderer.
- `tests/` exercises the library on concrete values.
