# digital_dash

Verified core of an automotive digital dashboard that speaks the
Speeduino-compatible TunerStudio serial protocol.

## Layout

- `src/` — the verified library (Verus):
  - `commands.rs` — command bytes, signature and version replies;
  - `och_block.rs` — the 87-byte output-channel block, its setters and getters;
  - `types.rs` — protocol errors and the `SerialPort` trait;
  - `dash.rs` — main-loop scheduling and the reply to every command;
  - `interrupts.rs` — tachometer / speed-sensor pulse timing;
  - `rpm.rs` — tachometer input gating (stop timeout, period range);
  - `vss.rs` — speed-sensor window counting and motion lock-in;
  - `filtering.rs` — sorting and trimmed sum of ADC samples;
  - `odometer.rs` — EEPROM record of the odometer;
  - `receiver.rs` — decoding of replies on the host (padding, hex dump).
- `app/` — ordinary Rust: the receiver CLI, the floating-point sensor
  processing (filters, thermistor, boost, RPM and speed arithmetic), the
  odometer's mileage arithmetic and the firmware loop over hardware traits.
- `tests/` — tests of the library.
