# dsh_desktop

The verified core of a desktop shell that starts the `@deepseek-ai/dsh` web service and
shows it in a native window with a tray icon.

- `src/service.rs`: launch modes, which commands probe, start and stop the service, and how
  the WSL probe output is read.
- `src/readiness.rs`: the wait until the service accepts connections.
- `src/startup.rs`: answering a start request from the start page.
- `src/shell.rs`: window close, tray menu, tray click and autostart decisions.
- `src/text.rs`: white space, trimming, searching and decimal numerals on characters.
- `app/`: the Tauri application and the process and network I/O around the library.
