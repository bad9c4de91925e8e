# gamesense

The logic of an Android device manager and game-playing agent, verified with
Verus. The device manager drives `adb`: it lists devices, reads their
properties, installs and manages packages, moves files, sends input, mirrors
the screen through a scrcpy server, and keeps notes of the agent's game
sessions in a notes vault.

## Layout

- `src/` — the verified library. Every function states what it returns in its
  contract; the command functions take the output of an `adb` run and return
  what it means, and build the argument lists of the runs.
  - `text.rs`, `encoding.rs`: the string and byte functions the rest is built on.
  - `adb/`: command lines, device discovery, the executor facade, the device tracker.
  - `commands/`: device properties, file transfer, packages, input, shell, wireless.
  - `services/scrcpy.rs`: server launch, the H.264 stream splitter, control messages.
  - `agent/`: prompts, observation, actions, the agent loop's decisions, session notes.
- `tests/` — tests of the library.
- `app/` — a command-line front end that runs `adb`, the sockets, the HTTP
  calls to the model providers and the files of the vault, and the few
  computations on floating-point numbers.
