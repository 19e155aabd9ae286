//! Live audio capture normalised to 16 kHz mono PCM16 and streamed to a
//! speech-to-text service: the sample-rate and channel conversion, the
//! recording session's state machine, the capture fallback plan and the
//! decisions of the duplex transcription link.

use vstd::prelude::*;

pub mod resample;
pub mod events;
pub mod session;
pub mod link;
pub mod inbound;
pub mod backend;
pub mod config;
