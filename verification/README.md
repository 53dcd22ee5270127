# slim_bindings

The verified core of the Python bindings of the SLIM service.

- `src/` (Verus): how a service's agent is derived from its identity token
  (`identity`), agent names and their hashes (`naming`), where a publication
  is routed (`publish`), what a receive hands back (`receive`), and the
  service's own state (`service`).
- `app/`: the pyo3 classes and functions and the async calls into the
  service, which hand plain values to the library and take them back.
- `tests/`: tests of the library on concrete values.
