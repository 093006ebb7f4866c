# cargo-embed

Builds a program, flashes it to a microcontroller through a debug probe, resets
the core, and then serves RTT channels and a GDB server, as an `Embed.toml` asks.

- `src/` is the library: every decision of a run, on plain values, with contracts
  that Verus proves.
  - `cli`, `config`, `chip`, `probe`, `reset`, `rtt`: what the command line and the
    configuration mean.
  - `session`: a run as a machine; each step is outside work, each outcome leads to
    the next step. `course`: what holds of whole runs.
  - `flash`: how the progress bars follow the flash loader.
  - `defmt`: the log table of a program, and whether its locations are of use.
    `elf`: which files the decoder of that table cannot be trusted with.
  - `report`, `text`: the lines that a run prints.
- `app/` is the program around it: it drives the session, talks to the probe and
  the terminal, and reads files.
- `tests/` runs the library.
