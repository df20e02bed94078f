//! Campaign execution and engagement tracking engine for phishing-simulation
//! exercises.
//!
//! The crate models the core of such a system: the reversible tracking-token
//! codec, the client-context extractor, the template renderer, the campaign
//! lifecycle state machine, the engagement recorder, and the dispatch
//! orchestrator, together with an in-memory repository the orchestrator acts
//! on. Mail transport, HTTP routing and persistent storage are collaborators
//! that live outside the library.

pub mod auth;
pub mod campaigns;
pub mod codec;
pub mod dispatch;
pub mod email;
pub mod engagement;
pub mod errors;
pub mod model;
pub mod recipients;
pub mod render;
pub mod requests;
pub mod settings;
pub mod store;
pub mod templates;
pub mod text;
pub mod tracking;
pub mod user_agent;
