# xui_offline_builder

Builds offline installation bundles for the 3x-ui panel: the panel release,
its management script and service file, optional system packages and SSL
files, and a generated `install.sh` (optionally wrapped into one
self-extracting script).

- `src/` is the library, verified with Verus: the build settings, the
  per-distribution package knowledge, the exact text of the generated
  installer, the bundle manifest with its SHA-256 step records, the resume
  and settings-editing decisions, the plan of a build run, and the wizard as
  a state machine that the terminal front end drives.
- `app/` is the terminal program around it: prompts, downloads, files and
  the JSON form of the manifest.
- `tests/` exercises the library on concrete values.
