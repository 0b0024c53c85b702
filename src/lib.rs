//! Orchestration layer around two media tools: an analysis tool and a
//! transcoding tool. The library decides what to run and what the outcome
//! means; the caller performs the actions that the step machines ask for.

pub mod analysis;
pub mod analysis_service;
pub mod conversion_service;
pub mod error;
pub mod gateway;
pub mod json;
pub mod model;
pub mod paths;
pub mod resolution;
pub mod text;
pub mod thumbnail_service;
pub mod timestamp;
