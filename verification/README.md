# listener_coordinator

The decision core of a dictation coordinator.  A device or a microphone records speech, a
recogniser turns it into text, a language model may polish the text, and the text is put at the
cursor.  This crate decides what happens next at every point of that path.  It never records,
sends or draws anything itself.

Every rule is an executable function whose contract states its result exactly, and Verus proves
that the code keeps it.
Clocks are numbers of milliseconds, settings are texts, and whatever the outside world has to
report comes in as an argument or as an event.

## Layout

| Where | What |
| --- | --- |
| `src/text.rs`, `src/session.rs`, `src/ids.rs`, `src/preferences.rs` | texts, identifiers, phases, preferences |
| `src/endpoint.rs`, `src/activity.rs` | when a recording ends because its owner stopped talking |
| `src/candidate.rs`, `src/release.rs`, `src/terminal.rs`, `src/continuation.rs` | from a wake phrase to a session |
| `src/stream.rs`, `src/ble.rs`, `src/audio.rs`, `src/recording.rs`, `src/device.rs` | recordings of the device, its link and its light |
| `src/completion.rs`, `src/closeout.rs`, `src/delivery.rs`, `src/insertion.rs` | from the stop to the delivered and recorded text |
| `src/asr.rs`, `src/hotwords.rs`, `src/credentials.rs`, `src/llm.rs`, `src/polish.rs`, `src/script.rs` | recognisers, models and the text between them |
| `src/qa.rs`, `src/hotkeys.rs`, `src/capsule.rs`, `src/coordinator.rs` | spoken questions, shortcuts, the capsule, the entry points |
| `app/` | clocks, settings, shared state, serialised snapshots, audio levels and the loops that perform the outside work |
| `tests/` | the rules on concrete values |

Properties that span several rules stand in the same files as public proof functions.

## What is believed

Five outside functions carry contracts that are not proved here: `String::push`, the text form
and the parser of `uuid::Uuid`, the conversion of `ferrous_opencc`, and the sort of a slice.  Each
says in its doc comment what is believed of it.
