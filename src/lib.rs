//! An agent that takes requests from a host over one duplex connection and
//! carries them out against a web service, with a pool of sessions that it
//! checks and renews as it goes.

pub mod agent;
pub mod guard;
pub mod pool;
pub mod queue;
pub mod run;
pub mod service;
pub mod text;
