# surge

A terminal radio player: it searches the Radio Browser directory, plays the
chosen internet stream and draws its spectrum.

`src/` is the library, whose functions carry proved contracts:

- `cli/app.rs` – the application state (screens, volume and mute, search
  query, station cursor, the station playing) and its operations, with their
  laws.
- `cli/update.rs` – the key bindings and the key handler.
- `cli/ui.rs` – what the status line and the search popup show, and popup geometry.
- `controller.rs` – the commands sent to the decoding thread.
- `decoder.rs` – the decoding thread's bookkeeping: messages, buffer levels and
  resampling passes.
- `processor.rs` – the split of written audio into chunks, the writer's sample
  count, and the reader's clock of what playback has reached: which queued
  chunks are due and how much of the visualisation buffer to keep.
- `loader.rs`, `signal.rs` – a value computed on another thread, and a one-shot
  flag between threads.
- `radio.rs` – stations, the station search request, and the fetcher that
  reports the search it runs.

`app/` is the program around it: the terminal, audio output, network
streaming and decoding, the station directory, and the floating-point signal
processing.
