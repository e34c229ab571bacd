# typwriter

Helpers for compiling Typst documents, written in Verus:

- `src/fonts.rs`: font discovery (font directories, then the fonts Typst
  embeds) and the listing of fonts by family.
- `src/inputs.rs`: the `sys.inputs` dictionary built from key/value pairs.
- `src/world.rs`: the world a document is compiled in, and the decisions that
  turn the outcomes of resolving its input file into errors.
- `src/error.rs`: the error of creating a world and its message.
- `app/`: the `World`, `Display` and `Error` implementations, and the font
  map keyed by family name.

Calls into typst and typst-kit stand behind small trusted functions whose
contracts say what those crates' sources show.
