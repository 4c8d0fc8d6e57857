# razer

Monitoring and configuration of the Razer DeathAdder V3 HyperSpeed over wired
USB (`1532:00c4`) and its 2.4 GHz receiver (`1532:00c5`): battery level and
charging state, connection type, and the polling rate (125, 500, 1000 Hz).

- `src/` is the library, verified with Verus: the 90-byte feature-report
  protocol and its XOR checksum, request encoding and response parsing, answer
  checks and the retry policy of a transaction, decoding of battery and
  polling-rate answers, the device catalog, the choice of the HID control
  interface, the state the desktop monitor shows per device, and the
  arguments of the control tool.
- `app/` is `razerctl`, the command-line tool. It performs the HID transfers
  (through `hidapi`) and hands their outcomes to the library.
- `tests/` exercises the library on concrete reports.

The desktop monitor is not part of this crate. Its front end is built on the
`xengui`, `xenframe` and `xengui_icons` crates: `xengui_icons` is not in the
registry, and the published `xengui` lacks the task and icon API it uses. The
monitor's decisions are in `src/monitor.rs`: the state shown per device, the
rate buttons, and the polling task's next action after each event. The
`Device` backend for the mouse is in `app/backend.rs`, for that front end to use.
