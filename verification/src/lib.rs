//! Verified control logic of the Voxtral C interface: the speech-recognition
//! and speech-synthesis contexts, the order in which their work is done, the
//! errors they report, and the data reshaping between the stages.

pub mod report;
pub mod mel;
pub mod tokens;
pub mod asr;
pub mod prompt;
pub mod tts;
pub mod laws;
pub mod session;
pub mod behaviour;
