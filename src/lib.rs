//! Verified core of a safety layer over the spandsp telephony DSP engines.
pub mod callback;
pub mod dtmf;
pub mod echo;
pub mod error;
pub mod fax_modems;
pub mod g711;
pub mod g722;
pub mod g726;
pub mod handle;
pub mod logging;
pub mod streaming;
pub mod t30;
pub mod t38_core;
pub mod t4;
pub mod tone_generate;
