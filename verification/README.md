# Clickei

A macro recorder and auto clicker for Windows.

- **Recording**: captures mouse and keyboard input and plays it back with a speed, a number of
  loops and an interval between them.
- **Static clicker**: clicks at the mouse, at a fixed point or through a list of targets, with
  the real mouse or by messages to a window, with deviations of interval and position.
- **Hotkeys**: global hotkeys for both, and an emergency stop by three quick presses of Esc.

## Layout

- `src/` is the library. It holds every decision of the program and is verified with Verus; it
  does no input or output.
- `app/` is the program around it: windows, hooks, threads and files.
- `tests/` runs the library on concrete values.

Two things are taken on trust: that `rand`'s `gen_range` stays within its range, and that
`String::push` appends a character.

The configuration is kept in `%APPDATA%/Clickei/config.json`; macros are `.ttx` files.
