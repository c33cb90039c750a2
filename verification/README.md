# wallselect

A wallpaper picker for Wayland compositors, in two parts.

- `src/` is the verified library: what the picker decides. It validates the
  chosen file, drives the `hyprpaper` and `swww` backends as state machines
  (each step either runs a command, looks at the chosen path, or finishes),
  judges how a command ran, remembers the loaded wallpaper, and reads the
  records of listed files (image type, thumbnail). `src/laws.rs` holds the
  properties that span several steps.
- `app/` is the GTK program around it: the window, the file list, and the
  driver that performs the library's steps (running commands, asking the
  filesystem) and hands back what came of them.
