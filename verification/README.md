# shuttle_tile_sim

Records of Space Shuttle thermal protection tiles, verified with Verus: the identifier
scheme (`BATCH-LOCATION-SEQUENCE-CHECKSUM` with a Luhn check value), the audit of
identifiers, the manufacturing pipeline and the summaries and verdict of a tile report.

- `src/` — the verified library.
  - `text.rs`: byte-width fields, zero padding, decimal rendering and parsing, splitting
    and searching of text.
  - `identification.rs`: location codes, checksums, identifier generation, encoding,
    parsing and validation, human- and machine-readable forms.
  - `audit.rs`: the audit engine and its checks.
  - `manufacturing.rs`: the stage pipeline and running it on a tile.
  - `report.rs`: counts, service life, the overall verdict and the report text.
  - `commands.rs`: what the command-line tool decides: surface names, the steps of a full
    run, the verdict of its report.
- `tests/` — tests of the library.
- `app/` — the command-line program and the floating-point physics (materials, geometry,
  bonding, thermal simulation, quality tests), which stay outside the verified library.
