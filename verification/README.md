# mycelia

The decision logic of the Mycelia tooling, verified with Verus: release
candidates and releases (`rc`, `release`, `xtask_release`), publishing
(`publish`, `copy_tree`), the workspace build (`xtask`), the development server's
protocol decisions (`server`, `devserver`), the HTTP values and client table
of wasm components (`http`), scaffolding (`new_project`), and the laws that hold across them (`laws`).

- `src/` is the verified library.
- `tests/` runs it on concrete values.
- `app/` is the command line around it: processes, files, GitHub, gRPC.
