# sonora

The verified core of the Sonora desktop music player's shell, written in
Verus.

- `src/percent.rs`: percent-decoding of `file://` URIs into local paths.
- `src/launch.rs`: which launch arguments count, and what a batch of
  hand-off items asks for (a destination to navigate to, files to open).
- `src/batch.rs`: gathering a burst of "Open With" hand-offs into one batch.
- `src/window.rs`: corner rounding, caption removal and maximised placement
  on Windows.
- `src/keymap.rs`: the table of key bindings and the contexts they apply in.

`app/` is the desktop program around the library: the UI framework, the
window system calls and the async hand-off loop.
