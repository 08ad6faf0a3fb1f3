//! Transcode policy and command synthesis for a fixed Apple TV delivery
//! profile (H.264 video, AAC audio, MP4 container).
//!
//! Given stream metadata probed from a media file, the library classifies the
//! streams into a [`media::MediaProfile`], decides whether the file already
//! satisfies the target profile, interprets a user's subtitle-burn selection,
//! resolves an encoding strategy (hardware kind or software) from the host
//! platform and encoder availability, picks a bitrate tier from the
//! resolution, and synthesizes the ordered argument sequence for the external
//! encoder together with the derived output path.
//!
//! The library performs no I/O: probing, prompting, and process invocation
//! belong to the surrounding application, which hands in plain values.

pub mod accel;
pub mod bitrate;
pub mod command;
pub mod compat;
pub mod media;
pub mod strutil;
pub mod subtitle;
