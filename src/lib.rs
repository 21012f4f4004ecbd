//! Intent-routed conversational responders with bounded, templated
//! conversation state.

pub mod chatbot;
pub mod completion;
pub mod embedding;
pub mod error;
pub mod intent_detector;
pub mod intent_router;
pub mod model_traits;
pub mod pipeline;
pub mod text;
