//! Building and driving a single text-to-speech synthesis request: speech
//! rates and their markup tokens, the markup payload, region resolution,
//! argument resolution and the step machine that turns the remote call's
//! outcome into the write of the audio file.

pub mod text;
pub mod rate;
pub mod payload;
pub mod region;
pub mod request;
pub mod synthesis;
