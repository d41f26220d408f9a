//! Verified core of a DNS zone export tool.
//!
//! The tool authenticates against a cloud DNS provider, pages through the
//! account's zone list, fetches a plain-text export of each zone's records,
//! and writes one file per zone.  Everything that decides or computes lives
//! here with a contract: credential validation, authentication header
//! construction, the pagination state machine, and the planning of each
//! export write.  The surrounding binary performs the HTTP calls and file
//! writes and feeds their outcomes back in as plain values.

use vstd::prelude::*;

pub mod credentials;
pub mod export;
pub mod headers;
pub mod lister;
pub mod numbers;
pub mod urls;
