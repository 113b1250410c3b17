//! Turn-taking core of a voice conversation front-end: loudness measures on
//! captured audio, the endpointing and barge-in policies, the turn state
//! machine with its conversation history, the playback session machine and
//! its loudness meter, the application form that the assistant fills through
//! tool calls, and the WAV framing of an utterance.

pub mod signal;
pub mod endpoint;
pub mod barge;
pub mod text;
pub mod form;
pub mod wav;
pub mod player;
pub mod chat;
pub mod turn;
pub mod meter;
