# wh_updater_client

The updater client of the Warehouse game mods (Transformers: Fall of
Cybertron), with its decision logic verified in Verus.

- `src/` — the verified library: game server URLs, the path model, version
  checks, where each file of an update is unpacked, copied and backed up,
  download progress, the search for the game's installation, the order of the
  steps of an update run, and the handling of `Coalesced.ini`.
- `app/` — the I/O around it: HTTP, the staging directory, the zip archive,
  the file system, the Windows registry, the folder dialog, and the loops that
  drive the library's state machines.
- `tests/` — tests of the library on concrete values.
