//! A client for a remote video-editing draft service driven over four HTTP
//! POST endpoints: create a draft canvas, attach a video clip, attach a text
//! overlay, and save the draft to a project file.  This crate holds the
//! whole client-side contract — the draft gate, the exact JSON request
//! bodies, and the reading of the JSON responses — all verified; the HTTP
//! transport itself stays outside.

pub mod client;
pub mod parse;
pub mod text;
pub mod workflow;
