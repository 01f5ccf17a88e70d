# checkin_ops

Verified core of a set of test ops for a JavaScript runtime.

- `src/dom_point.rs`: a point whose four coordinates are held as `f64` bit
  patterns; construction with `+0.0` for missing coordinates, and per-coordinate
  reads and writes.
- `src/object_wrap.rs`: small wrapped objects (`TestObjectWrap`, `TestEnumWrap`, `Foo`).
- `src/output.rs`: the sink of logged lines.
- `src/test_data.rs`: a store of captured runtime statistics, keyed by name.
- `app/lib.rs`: the runtime bindings (op registration, engine values,
  floating-point conversions, timers).
