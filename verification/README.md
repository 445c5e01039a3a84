# region_to_share

Share a region of the screen in video calls: select an area on a
screenshot, then show it live in a window that conferencing tools can
share. Captures come from X11 (shared memory, with the XFixes cursor) or,
on Wayland, from a desktop-portal screencast read through PipeWire.

## Layout

- `src/` — the library, verified with Verus: rectangles and pixel formats,
  cutting a region out of a stream frame, turning frame data into displayed
  pixels, placing and blitting the cursor, the capture loop's counters, the
  window's deferred resize, the profiler windows and buffer pool, the portal
  session's bookkeeping, `/proc` parsing, configuration rules and error
  messages. Each public function carries a contract; proof functions state
  the laws that relate several calls.
- `tests/` — tests of the library on concrete values.
- `app/` — the program around it: the egui window, the X11, portal and
  PipeWire I/O, EGL/GL import of DMA-BUF frames, the settings file, and the
  floating-point statistics, scaling and blending.
