# openscq30_lib (A3953)

Verified packet formats, device state and setting logic for the Soundcore A3953 earbuds.

- `src/devices/soundcore/common`: the wire types shared by Soundcore devices (battery, firmware
  versions, equalizer and Hear ID blocks, flags), packet framing with length and checksum, and
  the module collection and device builder that settings are registered with.
- `src/devices/soundcore/a3953`: the A3953's own structures, its state report (read and
  written, with a proved round trip), the custom equalizer write, the device state, and the
  setting handlers and state modifiers for sound modes, press sensitivity, spatial audio and the
  two flags.
- `src/api/settings.rs`: settings, values and their errors.
- `src/connection_backend`: the decisions of the macOS RFCOMM backend (address conversions
  through `macaddr`, write retries).
- `src/logging.rs`: the command line's verbosity levels.
- `app/`: the command line (logging setup, database path, decoding a state report given as
  hex). It also holds the IOBluetooth backend (macOS only) and a loop that would send what the
  state modifiers decide; nothing in the command line connects to a device yet, so neither is
  called.
