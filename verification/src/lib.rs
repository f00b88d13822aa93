//! Decision core of a dictation coordinator.
//!
//! Every module holds rules that turn plain facts (what a recogniser reported, what a
//! preference says, what the clock reads) into plain decisions.  Capturing audio, talking to a
//! device, drawing a capsule and calling a language model happen elsewhere.

pub mod text;
pub mod session;
pub mod endpoint;
pub mod delivery;
pub mod insertion;
pub mod completion;
pub mod preferences;
pub mod closeout;
pub mod candidate;
pub mod release;
pub mod terminal;
pub mod stream;
pub mod qa;
pub mod credentials;
pub mod llm;
pub mod script;
pub mod asr;
pub mod hotwords;
pub mod audio;
pub mod ble;
pub mod ids;
pub mod activity;
pub mod polish;
pub mod continuation;
pub mod device;
pub mod recording;
pub mod hotkeys;
pub mod capsule;
pub mod coordinator;
