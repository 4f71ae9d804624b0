//! Per-guild playback queue engine: domain policy, query resolution,
//! queue insertion, mode dispatch and time-until-play estimation.

pub mod policy;
pub mod error;
pub mod queue;
pub mod estimate;
pub mod query;
pub mod text;
pub mod resolver;
pub mod dispatch;
pub mod store;
pub mod timestamp;
pub mod playback;
