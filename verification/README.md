# apaint

Paint descriptions, paint series and paint mixing for artists' colour
tools, as a library whose behaviour is stated in contracts and proved with
Verus.

## Layout

- `src/` — the verified library.
  - `characteristics.rs`, `properties.rs`: the characteristics of paints
    (finish, transparency, permanence, ...), their names, abbreviations and
    parsing, and mixers that average them by parts.
  - `text.rs`: string order, acronyms and abbreviations.
  - `colour.rs`: sixteen-bit RGB colours and their Pango notation.
  - `sorted.rs`: lists kept sorted by id with no id twice, with binary
    search, adding, removing, and the laws that relate them.
  - `series.rs`, `spec.rs`, `watercolour.rs`: paint series and their
    specifications.
  - `mixtures.rs`: building mixtures (parts reduced by their greatest
    common divisor, colours mixed from the components), mixing sessions,
    and saving and restoring sessions.
  - `legacy.rs`, `legacy/legacy_series.rs`: reading the legacy text format
    of paint series, and the earlier saved format.
  - `digest.rs`: SHA-256 digests of saved text.
- `tests/`: tests of the library.
- `app/`: JSON reading and writing with serde, the `Display` form of
  errors, and the floating-point characteristics of mixtures.
