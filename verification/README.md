# firmware_core

Application logic of a field-oriented motor controller, verified with Verus.

- `src/` holds the logic: boot and update of the firmware image, records in flash, integrity checks,
  operating modes and fault reactions, calibration, the decisions of rotor estimation, and the
  iterations of the current control loop. Numbers are held as the bits of single precision floats
  (`Single`): the library compares, negates, clamps and carries them. What has to be computed with
  them is worked out between the stages of a function and handed in.
- `app/` is the arithmetic around it, the simulated machines, the plots, and the flash of the
  bootloader.
- `tests/` runs the library, against a simulated motor among other things.

Public proof functions whose names begin with `law_` state what holds of the library as a whole.

Relied on without proof: that the checksums of the `crc` crate depend on the bytes alone, and that the
implementations of `CurrentController`, `SaliencyBasedEstimator`, `StageArithmetic` and `SwapOps` do what
these traits state: they keep the record of the calls that they get.
