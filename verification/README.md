# rsi_maintenance

A maintenance tool for the RSI launcher of Star Citizen under Wine: it
installs and starts the launcher in a Wine prefix, opens Wine's tools, and
edits the environment variables that the configuration file sets.

`src/` is the verified library (Verus):

- `text` – trimming, line splitting and character conversions.
- `paths` – where the launcher, the game and the installer live in a prefix.
- `launcher` – the release-metadata parser, the commands that install and
  run the launcher, how their outcomes read, the install-only flow.
- `config`, `config_editor` – the configuration model (settings and a
  key-ordered environment map) and the editor that changes and saves it.
- `download`, `progress`, `runner` – the download state machine and the
  state of the install-and-run screen.
- `bundle` – language identifiers, Fluent resources and bundles, and
  message arguments, behind the contracts of the outside crates' calls.
- `i18n`, `pages` – language detection, the choice of message file, the
  translations made from it and their lookups, and the screens' labels.
- `app_state` – the application's state machine: each message gives the
  next state and the commands for the host.
- `laws` – properties that span several operations.

`app/` is the window (iced), the file, process and network work, and the
serialised copies of the configuration types; it feeds the results of the
commands back to the state machine.
