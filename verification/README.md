# notalawyer

Embeds the license notices of a crate's dependencies into its binary and shows
them behind a `--license-notice` flag.

- `src/` is the verified library:
  - `notice.rs` renders the notice from the gathered licenses (`render_license_list`,
    `crate_link`), with the laws that place every license block and every crate line in it;
  - `config.rs` is the lookup of `about.toml`, from the manifest's directory upward, as a
    state machine whose file reads the caller performs;
  - `cli.rs` decides what the `--license-notice` flag does.
- `app/` holds `build()` for a `build.rs` (environment, cargo-about's gathering, file
  writing), the `include_notice!` macro, and the clap extension trait `ParseExt`.
- `tests/` runs the library on concrete values.
