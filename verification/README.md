# prek hook tables, verified

A Verus library with the hook tables and configuration checks of a
pre-commit hook runner, and a small `try-repo` program around it.

- `src/builtin_hooks.rs`: the built-in hooks, their kebab-case names and
  definitions; names round-trip and are distinct.
- `src/meta_hooks.rs`: the meta hooks, `excludes_any`, `identity`, and the
  reports of the "hooks apply" and "useless excludes" checks.
- `src/try_repo.rs`: the decisions of `try-repo` (repository kind, revision,
  synthetic manifests, hook selection, the step-by-step resolution of the
  repository and revision).
- `src/pattern.rs`: file patterns (regular expressions through `regex`, glob
  sets through `globset`).
- `src/toml_out.rs`: the generated `prek.toml`, written with `toml_edit`.
- `src/text.rs`: string helpers (joining, trimming, splitting, UTF-8).
- `app/main.rs`: the `try-repo` command line: git, temporary files, output.

The tests in `tests/` run the library with the real `regex`, `globset` and
`toml_edit` crates.
