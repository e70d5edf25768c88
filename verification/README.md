# aura_climate

Verified core of a home climate system built around Mitsubishi heat pumps
driven over their CN105 serial port, ESP32 room sensor nodes, and a central
hub with a tablet dashboard.

`src/` is the library, verified with Verus:

- `checksum`, `types`, `temperature`, `builder`, `parser`: the CN105
  protocol: frame checksum, byte codes, temperature encodings, packet
  construction and the streaming frame parser with its payload decoders.
- `controller`: the heat-pump controller node: applies decoded events to
  the unit's state and schedules handshakes, settings updates, remote
  temperature keepalives and status polls. Time is passed in as a
  nanosecond timestamp.
- `ld2410`, `shtc3`: the sensor node's presence radar frame assembly and
  the temperature/humidity sensor's CRC and frame decoding.
- `hub`: the hub's home model: dashboard commands, unit and sensor
  registration, the multi-zone orchestrator and telemetry snapshots.
- `assets`: content types of the dashboard's static files.

Values are integers in the unit the protocol or the model uses: half
degrees Celsius in the CN105 modules, tenths of a unit in the hub. The
floating-point conversions live in `app/`.

`app/` is the program around it: the hub's HTTP/WebSocket server, SQLite
history and orchestration loop, and desktop simulations of the heat-pump
and sensor nodes (`hvac-sim`, `sensor-sim`).
