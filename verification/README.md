# faderpunk

The logic of the Faderpunk controller firmware (sixteen channels, each
with a fader, a button, LEDs and a jack), written in Verus. Every function
in `src/` carries a contract; Verus proves all of them except the small
`#[verifier::external_body]` wrappers that call into `libfp` (its signal
helpers, lookup tables and fader latch). Those contracts are trusted: each
wrapper's doc comment names the `libfp` function and says what its
contract claims of it.

## Layout

- `src/types.rs`, `src/config.rs`: colors, LEDs, ranges, scales, curves,
  waveforms, app parameters and channel layouts.
- `src/app.rs`: what an app works with: LEDs, buttons, faders, jacks,
  clock division, latching, shared values.
- `src/storage.rs`: storage keys and addresses, stored parameter values
  and their byte records.
- `src/routing.rs`: the signal routing between inputs, apps and outputs.
- `src/layout.rs`: channel layouts, spawning, eviction and the task-arena
  budget.
- `src/fpapps.rs`, `src/fpapp_runtime.rs`: the catalog of installable
  apps and the decisions of their runtime (events in, commands out).
- `src/state.rs`: persisted runtime state and the jack registry.
- `src/scaling.rs`, `src/tables.rs`: calls into `libfp`'s signal helpers
  and lookup tables, each with the contract the library relies on.
- `src/apps/`: the built-in apps, each a state machine that takes one
  event (a millisecond, a clock tick, a button, a fader, a MIDI message)
  and returns the work for the hardware.
- `app/`: a host driver: conversions to `libfp`'s types, stored-state
  records with `postcard`, the floating-point parts (envelope shape, LFO
  phase, pitch bend, follower blend) and a short demo.
- `tests/`: tests on concrete values, run against the real `libfp`.
