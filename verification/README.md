# boa_dyncall

Bindings that let JavaScript running in the Boa engine call C functions
through dyncall, and read and write C structs.

- `src/` is the verified library: the conversions between JavaScript values
  and call values (`value`), the choice of a struct layout from a function
  descriptor (`signature`), the marshalling plan of a call (`dispatch`), the
  rewriting of a struct field (`fields`), the quit scan of an event poll
  (`quit`), C string buffers (`cstr`) and error message text (`text`).
- `app/` is the host program: it runs a script in Boa, registers `exfun`,
  `exstruct`, the `ExStruct` class and `checkQuit`, reads engine values into
  the library's values and performs the foreign calls that the library plans.
- `tests/` runs the library on concrete values.
