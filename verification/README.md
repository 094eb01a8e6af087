# qhyccd

A library for QHYCCD astronomy cameras and filter wheels, with a simulated
camera for work without hardware.

- `src/` is verified with Verus: the control and error catalogues, the
  decoding of what the vendor SDK reports (status codes, sentinel values,
  firmware version bytes), the decisions of the camera scan, the configuration
  and state machine of the simulated camera, and the laws that relate its
  operations (`src/simulation/laws.rs`).
- `app/` is the unverified shell around it: the FFI declarations of the vendor
  SDK, the `Sdk`, `Camera` and `FilterWheel` handles that lock shared state and
  call into the SDK or the simulation, and everything that works on floating
  point numbers or random numbers (control values, cooler temperature, the
  synthetic images).
- `tests/` runs the verified library on concrete values.
