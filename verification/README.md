# immich-alt-text

A terminal app that describes the photos in an Immich library with a vision model and writes
the text back as each photo's description. A photo that has a description is skipped, so a run
can be stopped and started at any time, and hand-written descriptions are never touched.

The library under `src/` holds the decisions of the app and is verified with Verus. The
program under `app/` does the input and output around it: terminal, files, HTTP and tasks.

## The library

| Module | What it holds |
| --- | --- |
| `config` | Configuration values, defaults, validation, file locations, the steps of a save |
| `settings`, `layout` | The settings form and the prompt editor with its wrapped rows |
| `app`, `events` | The state of the UI, the messages that change it, the keys |
| `engine` | Retries, the steps of one asset, the worker loop, discovery, control |
| `pool` | What holds of several workers on one queue |
| `immich`, `llm`, `http` | The requests to the two servers and how the replies are read |
| `ui`, `theme` | Pictures of the two screens as plain values |
| `text`, `graphemes`, `urls`, `clock` | Text, grapheme clusters, URLs, durations |

Contracts speak of views: texts are sequences of characters, durations and instants are
nanoseconds. Functions that read the clock or lay out a screen come in pairs: one makes the
call, and one takes what came back as an argument and has an exact contract (`on_event` and
`on_event_at`, `run_screen` and `run_picture`). Functions named `law_...` state what holds over
several calls.

What is taken on trust is marked `external_body` or `assume_specification`, with a comment
that says what is claimed of the outside function.

## The program

`app/main.rs` runs the event loop. `app/engine.rs` drives the library's machines on tokio,
`app/clients.rs` sends the requests, `app/config_file.rs` reads and replaces the config file,
`app/draw.rs` draws pictures with ratatui, and `app/pace.rs` holds the numbers that are
computed in floating point.
