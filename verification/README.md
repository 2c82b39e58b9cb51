# blosc2

Bindings to the Blosc2 compression engine, with the library's own logic verified
by Verus.

- `src/` is the verified library: the error codes, the filters, codecs and
  compression levels, the compression and decompression parameters, the chunk
  header reader, the super-chunk bookkeeping and the chunk-by-chunk reader. Every
  operation that needs the C engine is written as a step that says what to ask
  the engine, and a `..._finish` function that turns the engine's answer into the
  result; both carry full contracts.
- `tests/` runs the library on concrete values.
- `app/` is the layer that calls the C engine (through its own `extern "C"`
  declarations), holding its pointers, and implements `std::io::Read`/`Write`,
  `Display` and the floating-point ratios.
