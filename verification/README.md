# Voice assistant core

A local voice assistant: it listens for a wake word, recognizes speech, and runs only configured,
typed commands. The decisions are a library that Verus verifies; the program around it does the
input and output.

## Layout

`src/` is the library. Every operation is a function with a contract; waiting, devices, files and
engines are outside, and their answers come in as values.

- `text`, `number`, `text_map`, `float32`: texts, numerals, ordered maps and single-precision values
- `domain`, `config`, `validation`: states, events, errors, and configurations with everything that
  can be wrong with them
- `commands`, `handlers`, `builtins`: from phrases to admitted actions
- `runtime`, `service`, `laws`: the command pipeline, the task that owns it, and what holds of it as a
  whole
- `signal`, `session`, `supervisor`, `bridge`, `audio`: from microphone blocks to controls of the
  runtime
- `stt`, `wakeword`, `models`, `metrics`: limits of the recognizer, keyword lists, the model catalog
  with installation, and counters
- `ipc`, `state`, `daemon`, `lifecycle`, `apply`, `reload`, `diagnostics`: requests and the daemon's
  answers to them

`app/` is the program: the daemon and the diagnostic commands. Microphone, engines and named pipes
exist on Windows only; elsewhere they report that. Building it there takes `cpal` 0.15 and `windows`
0.54 besides the dependencies that the manifest lists.

`tests/` runs the library.

## What the library states

Speech without a wake word is transcribed but never authorizes or confirms a command. A
confirmation token works once, in time, and for its command only. A damaged model that was moved
aside is restored unless a verified one takes its place. Built-in handlers do what an enabled command
configures and nothing else. Levels are reported at most ten times per second, no sample gets lost
on its way to incremental recognition, and a configuration that cannot be applied leaves the one in
force. Each of these is a proof function, next to the functions it speaks of or in `laws`.
