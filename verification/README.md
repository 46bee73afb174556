# robotrs

A robot-control framework whose core is verified with Verus.

## Layout

- `src/` — the verified library:
  - `protocol`: the navX-MXP serial/binary protocol (field codecs, hex checksums, message
    encoders and decoders).
  - `navx`: navX register dumps, SPI frames and their CRC, the polling loop's decisions.
  - `frames`: reading NetworkTables binary frames (MessagePack, through `rmp`).
  - `nt`: NetworkTables properties, subscription options, payload types, subscriber updates and
    clock synchronisation.
  - `topics`: the client's table of topic channels by name and topic names by server id.
  - `client`: the receive loop's decisions: what each server message asks for, the prefix
    subscription of a new topic, and the messages sent again after a reconnection.
  - `hid`, `reactor`: joystick data, trigger targets, and the registry of triggers with its
    edge-tracking state machine.
  - `triggers`: the decisions of the all-, any- and double-click trigger combinators.
  - `time`: alarms, fixed-rate loops and the queue of wake-up times.
  - `command`: the `Command` trait, its combinators, and running commands and futures.
  - `scheduler`, `subsystem`, `runtime`, `ds`: mode tasks, priority locks of subsystems,
    cancellation scopes, tick wakers and the driver-station mode.
  - `ctre`, `hal`, `error`: error codes and status handling.
- `tests/` — tests of the library on concrete values.
- `app/` — the runtime around the library: the clock, futures and process-wide registries,
  asynchronous triggers, the navX reading thread, the NetworkTables client and its websocket
  backend, floating-point conversions, feedforward terms and swerve kinematics, writing NetworkTables frames, and the serde forms of the
  JSON messages.
