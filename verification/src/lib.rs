//! Ephemeral file sharing behind share tokens: the decisions of the upload and
//! download pipelines, with the naming and token rules they rest on.

pub mod clock;
pub mod decimal;
pub mod download;
pub mod error;
pub mod guarantees;
pub mod hex;
pub mod interleaving;
pub mod model;
pub mod record;
pub mod upload;
pub mod utils;
