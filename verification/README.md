# bort-vk

A Vulkan wrapper on top of `ash`, in two parts.

- `src/` is the library, verified with Verus. It holds the decisions the
  wrapper makes, over plain values: image dimensions and their view types,
  API version ordering and packing, format classification (aspects, sRGB,
  depth formats), swapchain settings for a surface, descriptor pool sizing
  for set layouts, the pointers each surface platform needs, extension checks, device feature chains, memory access
  checks, the default property records of Vulkan objects and the error
  messages. Each public function states what it returns; the laws that
  relate several functions are public proof functions (`lemma_*`).
- `app/` owns the Vulkan handles: it converts between the library's plain
  values and `ash::vk` structures, makes the Vulkan calls and destroys the
  handles on `Drop`.

The memory allocator side of the wrapper is not part of this crate:
`MemoryAllocator`, `MemoryAllocation` (mapping, reads and writes, flushing),
`MemoryPool`, `Buffer`, `Image`, defragmentation and the allocator pools
(`AllocatorPool`, `PoolHandle`). They rest on Vulkan Memory Allocator bindings
whose FFI declarations, definitions and C sources are not available to this
build. What they decide without the allocator is in the library:
`check_memory_access_parameters`, `MemoryError` and its messages,
`AllocationCreateInfo` and the function routing of `VmaFunctionRouting`.

The tests under `tests/` run the library with the real outside crates.
