//! Frame sequencing for GPU-resident cellular automata: which compute passes a
//! frame records, in which order, against which buffers and with which
//! parameters.

pub mod buffers;
pub mod bytes;
pub mod frame;
pub mod grid;
pub mod life;
pub mod pointer;
pub mod readiness;
pub mod resources;
pub mod sand;
pub mod scalar;
