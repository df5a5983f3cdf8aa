//! Break planning and creative resolution for an HLS interstitial proxy.
//!
//! The planner rewrites a media playlist so that pending ad slots appear as
//! interstitial cues on the segments within which they start; the resolver
//! turns a slot, on a player's request, into an asset list drawn from a
//! VAST document. Dates, URLs, identifiers and the concurrent registries
//! come from outside crates, each call behind a small function whose
//! contract says what is taken on trust.

pub mod ad_server;
pub mod ads;
pub mod assets;
pub mod clock;
pub mod commands;
pub mod config;
pub mod dispatch;
pub mod error;
pub mod ids;
pub mod interstitials;
pub mod planner;
pub mod planner_laws;
pub mod playlist;
pub mod sessions;
pub mod slot_laws;
pub mod slots;
pub mod text;
pub mod timeline_laws;
pub mod vast;
pub mod web;
