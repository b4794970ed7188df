//! Contributor-side protocol of a trusted-setup ceremony: the contribution
//! lifecycle, the coordinator's request contract and its error taxonomy.

pub mod clock;
pub mod contributor;
pub mod hashing;
pub mod heartbeat;
pub mod info;
pub mod input;
pub mod lifecycle;
pub mod naming;
pub mod objects;
pub mod rest;
pub mod text;
