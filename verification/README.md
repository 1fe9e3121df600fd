# flcq

Host software for the FLCQ meter, a frequency / inductance /
capacitance meter reached over a serial port.

- `src/` is the verified library (Verus):
  - `protocol`: the request frames and the checks and decoding of the
    meter's replies (EEPROM bytes, temperature, frequency counts,
    identification);
  - `eeprom`: the calibration record, its EEPROM layout, the byte writes that
    store it, reading it back from the replies, clearing, and sample
    accumulation, with the proofs that reading back what was written (or
    cleared) restores the record;
  - `detect`: the ports on which a meter answered;
  - `commands`: queues of deferred commands;
  - `calibration`: which calibration the command line asks for;
  - `inductance`: the preferred C0 / L0 pair.
- `app/` is the command-line program: serial I/O, prompts, the waiting
  animation, and the floating-point LC and quartz formulas.
- `tests/` exercises the library on concrete values.
