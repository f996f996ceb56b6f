//! Client-side model of a workload orchestrator's HTTP API, centred on its
//! event stream. The stream's body arrives as transport-sized text chunks
//! whose boundaries owe nothing to document boundaries;
//! [`chunked_response::Assembler`] reassembles complete JSON documents from
//! them, and [`event_stream`] gives the documents their meaning as event
//! envelopes. Around that core stand the plain record types the API speaks
//! of, and the text format its duration fields use.

pub mod allocations;
pub mod chunked_response;
pub mod constraint;
pub mod csi;
pub mod duration;
pub mod event_stream;
pub mod jobs;
pub mod json;
pub mod nodes;
pub mod resources;
pub mod scaling;
pub mod services;
pub mod tasks;
pub mod text;
