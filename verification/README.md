# cloudreve_desktop

The decision logic of the Cloudreve desktop sync client, written in Verus and
proved against its contracts.

- `src/` is the verified library: settings, platform abstractions, the sync
  planner and the steps that carry out a plan, file-system event handling,
  conflict resolution, uploads, the remote listing walk, the file-provider
  IPC framing, and the decisions of the macOS and Windows integrations. Calls
  into `std::path`, `chrono`, `url`, `sha2`, `base64` and `DefaultHasher` go
  through small trusted wrappers whose contracts name their results.
- `tests/` runs the library on concrete values.
- `app/` is the unverified I/O around it: the JSON settings file, the macOS
  marker files, notifications and launch agent, and the Unix socket served to
  the file provider extension.
