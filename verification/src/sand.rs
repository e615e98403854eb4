//! The falling-sand simulation.

pub mod bind_groups;
pub mod constants;
pub mod input;
pub mod laws;
pub mod matter;
pub mod node;
pub mod pipeline;
pub mod pipeline_assets;
pub mod push_constants;
pub mod settings;
pub mod setup;
pub mod utils;
