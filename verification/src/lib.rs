//! Terminal rendering engine for a per-user activity summary: a calendar
//! grid of daily contribution counts, styled text blocks around it, and an
//! adaptive layout negotiator that picks the densest layout fitting the
//! terminal.

pub mod colors;
pub mod config;
pub mod fmt_num;
pub mod formatter;
pub mod graph;
pub mod measure;
pub mod patterns;
pub mod stats;
pub mod strutil;
