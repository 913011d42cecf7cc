# sentinel_rs

A memory-pressure guardian for macOS, whose decisions carry machine-checked proofs.

- `src/` is the verified library: memory-pressure bands and polling
  (`memory`), the trend window and the watchdog's patrol with its panic
  protocol (`watchdog`), the process manager that ranks memory consumers,
  builds feature vectors and sends signals (`process`), the decision engine
  (`inference`), the tray menu's rebuild decision (`menu`), the trusted
  boundary to `sysinfo` (`host`), and properties of the library as a whole
  (`laws`).
- `app/` is the menu-bar program: the kernel query, the tray icon and menu,
  notifications, the polling loop, and the floating-point feature scaling.
- `tests/` runs the library on concrete values.
