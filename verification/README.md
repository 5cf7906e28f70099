# Simba installer

The WaspScripts Simba installer, with its logic as a verified library.

- `src/install.rs`: the installation run, as a state machine. It asks for outside
  work (`Action`), takes in what came of it (`Event`) and gives messages to send.
- `src/release.rs`: the part of a run that downloads one GitHub release.
- `src/wizard.rs`: the wizard's pages and how it follows a run.
- `src/silent.rs`: the silent mode.
- `src/icon.rs`: the window's icon.
- `src/text.rs`, `src/http.rs`, `src/message.rs`, `src/action.rs`: what the others
  are made of.
- `src/laws.rs`: what holds of whole installations.
- `app/`: the window, the downloads and the files.

Progress is counted in thousandths of an installation, and the weights of its
parts in hundredths, so that half a weight is a whole number of thousandths.

To run the program, put the icon at `assets/wasp.png` below the program's
directory, and the launcher's address in the variable `SIMBA_LAUNCHER_URL`. The
helpers in `app/utils.rs` are plain stand-ins that rely on `tar` and PowerShell; a
distribution replaces them with its own.
