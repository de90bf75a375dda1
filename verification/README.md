# gpui_bar

A status bar: nine workspace tags, a layout selector and pills for CPU, memory,
battery, brightness, volume, screenshot, time, monitor and scale.

- `src/` is the library. It decides what the bar shows and how it reacts. Verus
  proves the contract of every function but the two in `clock` that call chrono,
  `format_local` and `local_now`: theirs are trusted. The modules:
  - `text`, `icons`, `color`: numerals, glyphs and colours
  - `reading`: measured percentages and their limits
  - `clock`: the wall clock and its text, through chrono
  - `devices`: what the bar is told about the machine
  - `state`: the bar's state under messages, ticks and clicks
  - `view`: the widgets that the bar shows
  - `watcher`: the loop that waits for the window manager's messages
  - `laws`: what holds across the operations
- `app/` is the program: the gpui window, the timers, the shared buffer and the
  managers for audio, brightness and measurements.
- `tests/` runs the library on concrete values.
