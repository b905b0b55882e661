# faderpunk

The logic of a sixteen channel fader controller for MIDI and control voltages,
verified with Verus.

- `src/latch.rs`: how a fader takes over stored values (jump, pickup, scale).
- `src/utils.rs`, `src/types.rs`, `src/tables.rs`: scaling, plain data, curves.
- `src/midi.rs`: live MIDI events and their bytes.
- `src/stream.rs`: events out of the bytes of a serial line.
- `src/storage.rs`: the layout of the memory, parameters, storages, erasure.
- `src/tasks/`: buttons, LEDs, scene overlays and MIDI routing as state machines.
- `src/app.rs`: what an app sees of the unit, and what it can ask for.
- `src/apps/`: eighteen apps, each a state and a function `run` from an event to
  the actions that follow.
- `tests/`: tests on concrete values.
- `app/`: the firmware around the library: channels, timers, stored bytes and
  floating point.

An app never touches hardware. It is told what was read and answers with a list
of `Action`s, so that every contract can say exactly what is done.
