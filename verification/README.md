# joid

A small reparenting X11 window manager. Its decisions form a library that is
verified with Verus; the program around it talks to the X server.

- `src/protocol.rs`: the protocol values the manager reads (screen, window
  attributes, geometry, configure and unmap events) and the `Request`s it
  sends, with a mathematical view of each request.
- `src/client.rs`: the registry of managed clients; `frame` and `unframe`
  with the requests they produce; the client list.
- `src/core_plugin.rs`: the built-in behaviour: adopting existing windows,
  framing windows that ask to be mapped, passing configure requests on,
  unmap notifications.
- `src/manager.rs`: choosing the screen, dispatching events to plugin hooks,
  and the start-up sequence with its failure messages.
- `app/`: the program: the X connection (xcb, xcb-util), the plugin trait,
  the event loop (tokio), and the sending of requests.
- `tests/`: tests of the library on concrete values, including the agreement
  of its protocol constants with xcb's.
