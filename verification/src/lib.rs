//! Supervisor for externally defined backend worker processes ("modules").
//!
//! The library holds the decision logic of the supervisor: the module
//! descriptor data model, the process registry, launch planning (language
//! table, argument templating), health-check path normalization and response
//! classification, and the retry protocol of the health waiter. All operating
//! system work (spawning and killing processes, TCP probing, port allocation,
//! locking) is performed by the embedding application, which feeds the
//! observed outcomes back into these functions.

pub mod error;
pub mod health;
pub mod launch;
pub mod manifest;
pub mod registry;
pub mod supervisor;
pub mod text;
