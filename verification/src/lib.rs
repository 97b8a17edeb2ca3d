//! A small feed widget library: a streaming sitemap-to-record parser, a
//! feed-fetch controller with cancellation by generation token, and a
//! bucketed "time since last update" formatter.

pub mod controller;
pub mod duration;
pub mod events;
pub mod feed;
pub mod lang;
pub mod parser;
pub mod text;
