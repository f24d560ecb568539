# hold-sccache

Installs sccache and wires it into the fleet's Cargo config as a size-capped
compilation cache, and unwires it again.

## Layout

- `src/` — the library, verified with Verus. It holds every decision the tool
  makes: where the config files are, how a size argument such as `20G` is
  read, how the cargo config document is edited with `toml_edit` (adding
  `build.rustc-wrapper = "sccache"`, removing only that key), what the sccache
  config holds and how `status` reads the cap back, which lines of
  `sccache --show-stats` give the hit and miss counts, and where `install`
  puts the binary. Functions take the text of a file (`None` when it does not
  exist) and return the text to write.
  - `text`, `number`, `paths`, `size`: whitespace, lines, words, decimal
    numerals, Unix path joining, size arguments.
  - `toml_doc`: the `toml_edit` calls the library makes, each behind a small
    trusted wrapper, and the verified document edits built on them.
  - `config`, `wire`, `status`, `stats`, `install`: the subcommands' logic.
- `app/` — the `hold-sccache` binary: argument parsing, reading and writing
  files, running `sccache` and `cargo`, JSON output, and the floating-point
  hit rate and size scaling.
- `tests/` — tests of the library.
