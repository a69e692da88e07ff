# t5f

The rules of the T5F real-time strategy game, written in Verus and proved
against their contracts.

- `src/` is the verified library: ownership and selection rules, orders and
  weapon targeting, the building-placement, interface-hit and selection-box
  state machines, network identifiers (a two-way map kept one-to-one), resource
  platforms, loading progress, object kinds and their names and footprints, the
  main menu's actions and the custom game ticker, the network messages, path
  finding state, and the integer parts of the random generator and of the
  signed powers.
- `tests/` runs the library on concrete values.
- `app/` is the program around it: command-line handling, the game engine's
  systems that read the mouse and buttons and hand plain values to the
  library, the UDP client and relay server with their serialised messages, and
  the floating-point parts (health, random floats, camera helpers).
