# typed_builder

Code generation for type-safe struct builders, verified with Verus.

For a struct the library generates a builder whose type tells which fields are set:

- `builder()` returns a builder in which no field is set;
- each field has a setter, which takes any value that converts into the type of the field and can
  be called once;
- `build()` can be called when every field without a default is set. The default of a field can
  refer to the fields in front of it.

The contract of each generating function says what it generates, token by token. `src/laws.rs`
states and proves what holds of the generated code as a whole.

## Layout

- `src/`: the library. Token streams, generics and expressions come from `proc_macro2`, `syn` and
  `quote`; the items through which the library uses them are marked `external_body` or
  `assume_specification`, and their doc comments say what is taken for granted.
- `tests/`: tests on concrete structs and attributes.
- `app/`: the step from the syntax tree of a derive macro's input to the library, and back.
