# menote_launcher

The verified core of the MeNote desktop launcher. `MeNote.exe` is a small
launcher with `payload.zip` (the Node runtime and the application) appended,
followed by the version text and a 28-byte footer. At start the launcher
finds the payload, brings the program runtime under
`%LOCALAPPDATA%\MeNote\runtime` in step with the package version, links the
runtime's data directories to `%APPDATA%\MeNote\data`, starts the service and
opens it in a web view.

- `src/` is the library, verified with Verus:
  - `footer` reads the package footer; the layout of a whole package is
    proved to read back to its payload and version.
  - `escape` quotes text as JavaScript string literals and escapes it as
    HTML, with proofs that both are faithful and cannot break out.
  - `pages` builds the loading page, the error page and the scripts the
    window runs for each message.
  - `service` is the start-up work as a state machine (reuse a running
    service, prepare, launch, probe until ready or failed).
  - `runtime` decides whether the runtime is current and plans its
    rebuild (junctions detached before anything is deleted, version marker
    written last), restores the install lock and reports unpacking.
  - `payload` opens the payload archive (with the `zip` crate) and turns
    it, entry by entry, into directories and files to write. An entry is
    left out exactly when the zip crate's `enclosed_name` refuses its name.
    For a name without NUL, backslash or colon that is not absolute, the
    contract of `entry_header` states (from the crate's source) that this
    happens exactly when its `/`-separated parts climb above the runtime; names that hold a NUL, are absolute or begin with `..` are
    always left out. Progress is reported after every entry that completes
    a new tenth.
  - `layout` names the directories and files; `messages` builds log lines
    and error reports; `text` renders numbers and rewrites text.
- `app/main.rs` is the Windows program around it: window and web view,
  reading and writing files, processes, the job object and message boxes.
- `tests/` run the library on concrete values.
