# impressy

An image toolbox whose core is verified with Verus.

- `src/` — the verified library: codecs behind exact contracts, transforms, slicing,
  naming, export planning, the document with undo/redo, the workspace state machine,
  batch runs, EXIF handling, posters, AI request building, provider adapters and the AI
  generation flow.
- `tests/` — tests of the library on concrete values.
- `app/` — the unverified shell: files, the system credential store, HTTPS transport,
  fonts, and the effects computed in floating point.
