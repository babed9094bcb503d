# Nandemonaiya music box

A cart for the WASM-4 fantasy console that plays Nandemonaiya (RADWIMPS)
note by note, shows which note it is on, and starts over when X is pressed.

- `src/` is the verified library: the note table (`pitch`, `melody`), the
  progress line (`display`), the cart's state and one frame of it
  (`player`), and the laws that hold over many frames (`laws`).
- `app/` is the cart itself: the console bindings and the exported `update`
  that reads the gamepad, calls the library and draws and plays the result.
- `tests/` runs the library on concrete frames.
