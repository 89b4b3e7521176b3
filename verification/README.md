# window_manager

The decision logic of a tiling X11 window manager, verified with Verus.

- `src/` is the library. Rectangles and their arithmetic (`rect`), collections
  of windows (`window`), workspaces and monitors (`workspace`, `monitor`), key
  names and key codes (`keycodes`, `key_names`), key bindings (`keybindings`),
  the settings and their checks (`config`), window properties (`ewmh`), status
  bar messages (`bar_message`) and the `wm_msg` command language
  (`msg_types`). Handlers do not talk to the X server: they append the X
  requests to make to a list (`workspace::XRequest`) and the bar messages to
  send to another, and the program around the library carries them out.
- `tests/` runs the library on concrete values.
- `app/` is the `wm_msg` client and the file, process and socket handling
  around the library.
