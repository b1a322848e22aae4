# libosu_py

A verified model of the osu! beatmap data behind the `libosu` Python module.

- `src/` (verified with Verus): plain types for mods, hitsound additions and
  samples, colours, hit objects, timing points, events and beatmaps; the text
  each of them shows itself as (`repr`), with decimal and hexadecimal rendering
  proved against specifications; kind names, option accessors and counts; the
  order of hit objects by time. Mod and addition flags go through the `libosu`
  crate's own bit-flag functions and mod-string parser, behind small trusted
  wrappers whose contracts restate what that crate's source does.
- `app/`: the Python module itself (pyo3 classes), the call of `libosu`'s
  beatmap parser and the conversion of what it returns into the model, the
  floating-point settings that the model does not hold, and stub generation.
- `tests/`: the model and the trusted wrappers exercised on concrete values.
