# wspr_beacon

Verified core of a GPS-disciplined WSPR beacon and of a two-channel Si5351
signal generator, written in Verus.

- `src/` is the library, every function of it verified:
  - `frequency`, `calibrate`: microhertz frequencies and the crystal
    calibration arithmetic (error in ppb, dial correction and its inverse);
  - `beacon::calibration`: the calibration state machine fed one PPS-gated
    tick count per gate, with its termination and reporting laws;
  - `beacon::scheduler`: the transmit cycle (wait for a fix, encode, calibrate,
    transmit, recover from errors) as a function from event to next state and
    outside action, with the invariant every step keeps;
  - `beacon::qth`: Maidenhead locators from integer microdegrees;
  - `beacon::transmit`: WSPR slot, tone and symbol deadline arithmetic, and
    the PPS-gated counter's step;
  - `beacon::frame`: one transmission as a state machine (wait for the PPS
    edge, send the symbols in order, switch RF off, report or fail);
  - `beacon::{config, events, states, status, logging}`: the build-time
    configuration and its consistency law, events, states and the status
    shown on displays;
  - `si5351`: the Si5351 register planner; each operation returns the I2C
    writes it needs and the driver masks they leave behind;
  - `hw::display`: what a character display shows of the status;
  - `gen`: the signal generator's front panel (encoder, debounced button,
    frequency/step/output controls and the LCD lines).
- `tests/` runs the library on concrete values.
- `app/` is the unverified glue: the I2C driver that sends the planned
  writes, NMEA decoding, floating-point positions, the event queue, the
  scheduler's drain loop, the transmission runner and display backends.
