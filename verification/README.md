# pcb_toolkit

A PCB design calculator: impedance, current capacity, via properties, unit
conversion and more.

The crate is split in two.

* `src/` is the verified library. It holds what can be stated exactly:
  the copper weight, plating, AWG wire gauge, IPC-2221C spacing and
  substrate material tables (numbers held as integers: hundredths of a mil,
  micrometres, milliohms, hundredths of a dielectric constant), the rules
  that split a value such as `0.254mm` into number and unit and name the
  unit, the parsers for the command-line choices, and the model provenance
  record with its caveat line. Every public function has a contract, and
  the table laws (thickness per ounce, monotonic spacing, thinner wire at
  higher gauge, case-insensitive material lookup, physical presets) are
  proved as proof functions.
* `app/` is the command-line program and the floating-point calculators
  (transmission lines, differential pairs, current capacity, fusing, vias,
  inductors, attenuators, PDN, thermal, crosstalk). They take the exact
  tables and parsing decisions from the library and do the arithmetic in
  `f64`.

`tests/` exercises the library on concrete values.
