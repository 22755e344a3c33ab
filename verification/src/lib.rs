//! The control plane of a network audio player for SlimProto music servers.
//!
//! The player follows its server: the server names the streams to play and
//! drives the transport, and the player answers with status frames. This library holds the decisions of that player as verified
//! state machines on plain values. Sockets, codecs, audio devices, threads
//! and clocks stay with the program that embeds it: it feeds the machines
//! with what happened and carries out what they answer.

pub mod audio_out;
pub mod callback;
pub mod decode;
pub mod headers;
pub mod message;
pub mod notify;
pub mod proto;
pub mod status;
pub mod stream;
