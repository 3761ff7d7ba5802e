# desktop_clear_master

A Windows tool that tidies desktop icons away under its own window, keeps
them there while the window is dragged, and hands the desktop back (icon
auto-arrange on) when it closes.

- `src/` is the verified library (Verus):
  - `geometry` — window rectangles and the `MAKELPARAM`-style point packing;
  - `style` — the list view's auto-arrange style bit;
  - `layout` — where each icon goes (a multiplicative hash over the window area);
  - `search` — the lookup chain that finds the desktop's icon list view;
  - `task` — the tidy / reposition / restore procedures as a state machine
    that names each window-system call and takes back its result;
  - `monitor` — the drag monitor's decisions (follow a window once it rests);
  - `session` — the program's phases and what closing it must do.
- `app/` is the shell: the egui window, the Win32 calls the state machines ask
  for, the monitor thread and the clock.
- `tests/` runs the library on concrete values.
