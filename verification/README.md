# ear_api

A verified library for talking to Nothing Ear devices over their serial
protocol, with the `earctl` program around it.

`src/` is checked by Verus:

- `protocol` — frame encoding, the CRC-16/MODBUS checksum and the reader that
  takes frames off a receive buffer, with proofs that a frame is read back as
  it was written, that a partial frame waits for more bytes, that a corrupted
  frame is rejected and that the reader only ever consumes the front of the
  buffer.
- `service` — decoding of the device's answers (battery, gestures, case LEDs,
  serial report, firmware, equaliser levels) and the payloads of commands,
  model descriptors, feature checks by model family, and the one-session slot.
- `models`, `gestures`, `types` — the model catalogue, gesture names and the
  values exchanged with the device.
- `server`, `client` — the decisions of the HTTP API and of the command line.
- `text` — character-level helpers used by the decoders.

`app/` holds the I/O: the RFCOMM connection, the HTTP server, the command-line
client and the serde copies of the library's types.
