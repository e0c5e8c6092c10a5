//! A council engine: fans one analysis task out to several independently
//! configured advisors, each bound to a distinct named lens, then reduces
//! their outputs into a single synthesized recommendation.
//!
//! The modules cover the whole pipeline: the fixed lens catalog and the
//! selection policy, the prompt renderers, the executor adapter's output
//! shaping, and the orchestrator's slot-keyed result collection.

pub mod adapter;
pub mod catalog;
pub mod orchestrator;
pub mod prompts;
pub mod selection;
pub mod text;
