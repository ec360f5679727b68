# plasma_simulation

Verified core of a plasma furnace heat-diffusion simulator.

* `src/` — the library, checked by Verus: parameter validation and its
  messages, the node topology of the axisymmetric (r, z) mesh, mesh presets
  and configuration, the material catalogue, torch-list bookkeeping, formula
  screening, the formula sandbox (its limits, the engine built from them and
  the syntax check), the formula table, run status, the plugin manager, and
  the desktop application's mesh-form conversion, project checks, template
  lookup, path comparison by components and recent-files list.
* `tests/` — tests of the library.
* `app/` — the command-line simulator around the library: the
  floating-point physics (materials, torches, heat solver, metrics,
  visualization data), formula evaluation, logging, and the desktop
  application's project files and commands.
