# nes_core

A NES emulator whose machine is verified with Verus: what every instruction, register and frame
does is stated as a contract and proved.

- `src/` is the library.
  - `cpu`, `ppu`, `apu`, `cartridge`, `joypad`, `bus` and `nes` are the machine. Each has a model, a
    value that says what it holds, and contracts that say what each operation does to that value.
  - `state` are save states, `replay` are replays, `fingerprint` and `dual` compare machines.
  - `session`, `window`, `netplay`, `panel`, `audio` and `keys` are the decisions of the program
    around the machine: what a command does, what is refused, what is shown, when sound is played.
  - `laws` states what holds of the whole: output never matters to the machine, every frame
    completes and paints the whole picture, a saved machine comes back and goes on as if nothing
    had happened, equal bytes before hashing come from equal states, a recording plays back, and no
    command leads a recording astray.
- `app/` is the program: threads, windows, files, the sound device and the mixing of samples.
- `tests/` runs the library.

A frame runs to the beginning of the vertical blank. Everything that players do comes in with a
frame's `FrameInput`, resets included, so a ROM and a sequence of inputs always give the same
machine.

The library cuts the levels of the channels into samples at the sample rate, in integers. Mixing,
averaging and filtering them are floating point, so the program does that.
