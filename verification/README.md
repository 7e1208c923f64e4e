# tsl2591-rs

Driver for the TSL2591 high dynamic range digital light sensor, verified with
Verus.

- `src/registers.rs`: register map, command bits, integration time, gain and
  persistence settings.
- `src/bus.rs`: I2C transactions as values (`BusOp`) and a model of the
  sensor's register file that gives them a meaning.
- `src/driver.rs`: the driver. Each operation returns the transactions it
  performs; operations that read take the bytes that came back and decode
  them; `begin_checked`, `begin_finish` and `get_event_checked` also take
  the outcomes of the bus calls and report the first failure. Every function
  carries an exact contract.
- `src/error.rs`: the error type, and `check_bus`, which turns the outcomes
  of an operation's bus calls into the error of the first failed call.
- `src/laws.rs`: properties of the operations together, proved against the
  register-file model (thresholds read back, configuration held in the
  Control register, power-down after every operation, ADC wait, channel
  reads, addressing).
- `app/lib.rs`: runs the driver on an `embedded-hal` 1.0 I2C bus and delay
  provider, and computes the illuminance in floating point.
