# zenoh-flat

A flat binding surface for Zenoh, split in two:

- `src/` is the verified library (Verus). It holds the plain values that
  cross a binding boundary (QoS and query enums, payload, encoding, sample,
  reply and hello data classes), the decoding of a received reply into its
  data class, the two's-complement readings of the binding's signed
  timestamps, timeouts and entity ids, key-expression and scouting-mask
  checking (through Zenoh), and the options a `get` derives from its
  arguments. Each public function states its result exactly, or, where Zenoh computes
  it, ties it to a named function of the arguments; the laws
  (round trips, what a decoded reply carries) are public proof functions.
- `app/` is the Zenoh-facing side: the `z_*` functions over native sessions,
  publishers, queriers and queries, their ergonomic twins, and the
  conversions between native Zenoh values and the library's data classes.
