# simls

A simulator/emulator manager: lists, starts, creates, deletes and erases iOS
simulators (through `xcrun simctl` and `xcodebuild`) and Android emulators
(through `emulator`, `avdmanager` and `sdkmanager`).

## Layout

- `src/` is the library, verified with Verus. It holds everything the
  program decides: the command-line grammar, which platforms are available,
  the programs to run for each operation and how their outcomes are read
  (listings, versions, system images, error reports), and the steps of each
  subcommand (`commands::flow`): what to ask, what an answer picks and what is
  run next. Outside programs are described as plain values (`Invocation`) and
  their outcomes handed back as plain values (`CommandResult`).
- `app/` is the program around it: it runs the programs, reads their JSON
  with serde, shows prompts with dialoguer, colors the listing and prints.
- `tests/` exercises the library on concrete inputs.
