# spinctrl

Battery-threshold, CPU-governor and thermal control for the Acer Spin 13
(Chromebook EC): a privileged service that drives `ectool`, `cpupower` and
sysfs, and a terminal interface that talks to it through files in
`/var/lib/spinctrl`.

## Layout

- `src/` — the library, verified with Verus:
  - `config.rs`: the configuration, its defaults, validation rules and
    thermal presets; governor names; the sysfs governor and frequency lists.
  - `ipc.rs`: where the IPC files live, the status records, the command
    wire format and its parser, the order of the recent-events list.
  - `hardware.rs`: parsing what sysfs, `ectool` and `cpupower` print, the
    arguments given to them, the retry schedule, and a stand-in backend.
  - `control.rs`: the service's decisions (charge mode, AC changes, start-up
    and boot configuration).
  - `interface.rs`, `tui.rs`: the terminal interface's state and every key's
    effect, the field editor, the events filter and window, labels and colors.
  - `error.rs`, `text.rs`: error types and messages; string helpers.
- `app/` — the program: file and process I/O, the async service tasks, the
  ratatui drawing and the command line (`spinctrl`, `spinctrl service`).
- `tests/` — tests of the library.
