# pyembed_xtask

Build tasks for a Rust program that embeds a Python interpreter (PyOxidizer's
`pyembed`), with their logic verified by Verus.

- `src/` — the verified library:
  - `hex` — lowercase hexadecimal escaping of the serialized PyO3 configuration,
    with laws (only hex digits, injective, works byte by byte);
  - `pyo3_config` — loading the PyO3 interpreter configuration and deriving
    `dep_cfg` and the interpreter path; `cargo:rustc-env` directives;
  - `cargo`, `plan`, `task`, `runner` — the `xtask` tasks (`release`, `build`,
    `prepare`, `scan`, `run`, help) as plans of steps, the cargo runs they
    issue, and the driver that runs a plan and stops at the first failure;
  - `pip`, `python` — the `pip install` run and Python resource kinds;
  - `strings` — text helpers.
- `app/` — the driver program and everything that touches the file system,
  processes, PyOxidizer and the embedded interpreter.
- `tests/` — tests of the library on concrete values.
