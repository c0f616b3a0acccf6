# odb

Reading ODB++ board archives (a ZIP container holding `stackup.xml`,
`netlist.xml`, `bom.xml` and per-layer directories) into a layer model,
verified with Verus.

- `src/` is the verified library: the data model (`model`), the ZIP access
  (`archive`, whose items are trusted contracts on the `zip` crate), the
  conversion of decoded XML documents into the model (`xml`), the reading of
  an archive (`parser`), the error messages (`error`) and the decisions of the
  geometry conversion that need no arithmetic (`geometry`). Coordinates are
  carried as IEEE 754 bit patterns (`F32Bits`) and never computed with.
- `app/` is the WebAssembly side: XML decoding with quick-xml and serde,
  scaling and offsetting of coordinates in `f32`, and `JsValue` errors.
- `tests/` runs the library on concrete values and on ZIP archives built in
  memory.
