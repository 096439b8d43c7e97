# wynobserve

The verified core of the WynObserve tools, written in Verus.

- `src/` is the library. Every function in it is verified against its
  `requires`/`ensures` contract, and the proof functions named `law_*` state
  properties that span several functions (what the privileged helper reads
  back from the Updater's command line, that the newest release wins, that
  answers from the Hub are taken exactly once, and so on).
  - Updater: `component`, `options`, `version`, `release`, `checksum`,
    `plan`, `install`, `helper`.
  - Observatory: `protocol`, `hub`, `inspector`, `memory_map`, `fleet`,
    `views`, `model`, `normalize`, `mock`, `config`, `updater`, `analysis`,
    `display`.
  - Shared text operations with their specifications: `text`.
- `tests/` runs the library on concrete values.
- `app/` holds what cannot be verified: process and file I/O, HTTP, the
  Hub's TCP connection, threads, and the `serde` forms of the library's types.
  It builds `wyn-update` and, when started under that name,
  `wyn-update-helper`.

The `semver` and `sha2` crates are called from `src/` through a few trusted
items in `version.rs` and `checksum.rs`; their doc comments say what is
assumed of each.
