# jellium_platform

The platform layer of a desktop media player, verified with Verus: what the
Wayland, X11 and Windows backends decide, with contracts that say exactly what
each decision is.

The player shows a browser's pictures as overlays on top of mpv's video. Three
things make that delicate, and they are what the proofs are about:

- the browser hands over whole frames and patches of frames, and the screen has
  to show the last frame, pixel for pixel (`wayland::layer_actor`,
  `wayland::layer_worker`, `wayland::shm_shadow`, `wayland::layer_laws`);
- mpv talks to the display server through a proxy that leaves it rendering and
  takes window management away from it (`x11::mpv_proxy`, `x11::wire`,
  `x11::proxy_laws`, `x11::proxy_rules`, `wayland::mpv_proxy`);
- windows, menus and overlays are configured by asynchronous protocols whose
  rules must never be broken (`wayland::root_window`, `wayland::root_settle`,
  `wayland::root_laws`, `x11::geometry`, `x11::geometry_pass`,
  `x11::overlay_fsm`).

## Layout

- `src/`: the library. `abi`, `input_types` and `text` are shared; `wayland`,
  `x11` and `windows` hold one backend each.
- `tests/`: its tests.
- `app/`: sockets, threads and compositor connections around the library.

The outside world is a value: a protocol object is an id or a type parameter, an
event is an argument, and what a function wants done is in its result. Parsing
and serialising X11 requests, and the arena that surfaces live in, come from
`x11rb` and `slotmap`; the functions that call them say what they rely on.
