# klamottenkiste

The verified core of a GTK4 widget that embeds a Wayland application. The widget hosts the
application in a nested compositor, shows its frames, and turns toolkit events into seat input.

## Layout

- `src/` is the core, written and proved in Verus.
  - `geometry`: widget positions to output positions, and allocations to output sizes. Positions are
    whole numbers of sub-pixels.
  - `input`, `controllers`: seat input, and the handlers that make it from toolkit events.
  - `channel`: the queues to the compositor, which are crossbeam channels.
  - `present`: the two ways a frame reaches the screen, and the return of its buffer.
  - `pane`: the state of a pane, and what each event does to it.
  - `lifecycle`: what holds of a pane over any run of events.
  - `capture`: one frame on request.
  - `echo`: the X11 test client.
  - `text`: text helpers.
- `app/` is the GTK widget and the X11 client around the core. It does the I/O and owns the toolkit
  objects.
- `tests/` runs the core.

The core decides and the widget acts: a method of `WaylandPane` takes what the toolkit or the
compositor reports, and returns what is to be done about it.

Four calls are taken on trust and documented where they are declared: cloning a channel's sender,
asking for its capacity, sending on it, and reading bytes as text.
