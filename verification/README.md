# pc_health

The decision logic of a read-only PC health desktop utility, verified with
Verus.

- `src/network` — internet fault localisation: the probe snapshot model and
  default-route choice (`domain`), the assessment of one snapshot
  (`observation`), the diagnostic lifecycle with confirmation and recovery
  (`state_machine`), probe scheduling, the round a request asks for, and the lifecycle step of a
  probe (`runtime`), probe
  rounds behind a shared coordinator (`service`), the mapping of native
  Windows answers (`windows`), the portable collector (`unsupported`), and
  the incident history's write plans and row formats (`incident_recorder`,
  `incident_store`).
- `src/sensor` — hardware sensor indications (`warning`, `service`), the
  demonstration source (`mock`), native counters and encodings
  (`collector`), and the sensor helper protocol (`helper`).
- `src/text` — verified text helpers used throughout.
- `app` — the desktop shell: Tauri commands, the SQLite incident store, the
  background worker thread and its loop (which waits, probes and publishes as
  the library's schedule decides), native Windows probes, and the floating-point
  sensor values.
- `tests` — executable tests of the library.
