# glutin_shell

The window of a browser shell, verified with Verus.

- `src/` is the library: the state of a window, and the rules by which input, messages of the
  browser engine and the main loop change it. `src/state.rs` says what each of them does,
  `src/window.rs` and `src/window/` do it, and `src/laws.rs` states what holds of every window.
- `tests/` runs the library on concrete values.
- `app/` is the native side: glutin and winit windows, OSMesa for headless ones, dialogs.

URLs are read by the `url` crate. It is the only outside code that the library calls, in
`src/address.rs`. Numbers that the windowing system gives as floating point reach the library by
their bits; whatever is computed with them is computed in `app/`.
