# dpmhub_gui

A desktop client (egui) that lists the packages of a `dpm` index server by
kind (binary, mobile lib, static file) and installs them with the `dpm`
command line tool.

- `src/` is the verified library: the package records, the address of the
  index server, and the panel's per-frame decisions (which list to fetch,
  which `dpm` command to run, how its status messages change the panel, what
  the dialog and the body show), with the laws that tie them together
  (`src/compoment/panel_laws.rs`).
- `app/` is the window: threads, HTTP, JSON, `dpm` processes and widgets.
- `tests/` runs the library on concrete values.
