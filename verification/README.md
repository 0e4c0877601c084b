# maple

Core of the maple user interface toolkit, verified with Verus.

- `src/` is the verified library: pixel arithmetic (`px`), shapes, colors,
  generational handles (`handle`), slot allocators and typed object
  registries (`registry`, `data_store`, `item_storage`), the widget tree with
  its layout and drawing (`ui`), canvas triangulation (`gfx::canvas`), the
  choices the Vulkan renderer makes on what the driver reports
  (`gfx::vulkan`), and the window-message and window-slot decisions of the
  desktop platform (`sys::window`, `os_window2`, `ui::platform`).
- `tests/` exercises the library.
- `app/` is the desktop program: the Win32 window and message loop, the
  Vulkan renderer, and the parts that compute with floating point. It hands
  plain values to the library and carries out what the library decides.

The registry stores integers, `char` and `&'static str` values. It does not
store boxed values of any type (`Box<dyn Any>`): reading one back goes
through the std trait `Any`, which verified code cannot call, and the
registry's values are plain copies in its model. Floating-point values are
left out as well, as the verified library holds no floats.
