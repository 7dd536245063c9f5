# joy

A verified library for the game controllers of the Nintendo Switch (Joy-Con
and Pro Controller) and for the DualShock 4, and for the tools built on
them.

- `src/` is the library, verified with Verus: the wire formats of the
  reports (input, output, subcommands, SPI flash, MCU and IR camera, lights,
  IMU, accessories), the CRC of the MCU commands, the decisions of the
  Joy-Con driver as plans of steps (`hid`), the waits for replies and MCU
  reports as a step function from each report read to what to do next
  (`wait`), the DualShock 4 reports (`dualshock`), the keys of a gamepad (`gamepad`), the gyromouse key
  mapping state machine (`mapping`), its configuration grammar (`config`)
  and engine decisions (`engine`), the choice of the samples that calibrate
  the gyroscope (`calibration`), and the argument checks of the toolkit
  (`joytk`).
- `app/` holds what talks to devices, reads the clock or computes with
  floating point: it runs the planned steps on a HID device, reads the
  DualShock 4, converts sticks, motion and rumble to and from floats, and
  carries the command line with its derives.
- `tests/` runs the library on concrete values.

The key mapping keeps its layers in a `HashMap` keyed by an integer (the
key's index and the layer) and the key states in a `Vec` indexed by the key,
where an enum-indexed array would need a derive of an outside crate that
the verified code cannot use.
