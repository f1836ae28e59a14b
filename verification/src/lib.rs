pub mod job;
pub mod laws;
pub mod model;
pub mod names;
pub mod pipeline;
