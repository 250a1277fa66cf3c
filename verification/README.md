# op_charge_controller

A charge controller for phones with UFCS chargers. Once a second it reads the
battery status; while a UFCS charger is connected it ramps the charger's
current vote up step by step, tapers it once a cell reaches the constant
voltage, and cuts it to zero at the cut-off voltage. While the battery is
nearly empty and discharging, the level shown by Android is pinned low.

## Layout

- `src/` — the library, verified with Verus:
  - `config.rs`: the profile, its validation rules, reloading, formatting
    (through taplo);
  - `battery.rs`, `text.rs`: the sysfs record formats (comma-separated fields,
    whitespace trimming, unsigned integer parsing, decimal output);
  - `ramp_up.rs`, `taper.rs`: one step of the current vote up or down;
  - `battery_display.rs`, `looper.rs`: the per-sample state machines, driven
    request by request by the caller;
  - `emul_temp.rs`, `mask.rs`: what is written to the thermal nodes and where
    mask files live;
  - `laws.rs`: properties of the state machines and of profile reloading.
- `app/` — the daemon: logging, the profile file and its watcher, sysfs
  readers, the node writes and mounts, `dumpsys battery`, and the loop that
  carries out what the state machines ask for.
- `tests/` — tests of the library.
