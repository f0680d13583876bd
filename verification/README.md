# dunst-in-gtk

A dunst-compatible desktop notification daemon: `org.freedesktop.Notifications`
over D-Bus, dunstrc configuration, one GTK4 window per notification, placed
through X11.

The library (`src/`, verified with Verus) holds everything that decides:

- `text`: character-level text handling (trimming, lines, splitting, decimal
  numbers, the `i32` and `f64` literal grammars).
- `config`: the dunstrc data model and its defaults; `Config::from_file`
  turns what was found on disk into a configuration and messages.
- `values`, `settings`, `dunstrc`: parsing dunstrc text into a `Config`,
  with a warning for every unknown or malformed line.
- `layout`: sizes from width/height specs and the position of every
  notification of the stack for the nine origins.
- `queue`: notification limit and do-not-disturb queueing.
- `daemon`, `dbus`, `icons`: expiry, stacking order, monitor choice, id
  bookkeeping, icon decisions.

`app/` is the program around it: GTK windows, the zbus server, xcb calls,
signal handling and file access.
