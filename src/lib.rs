//! A catch-all HTTP request logger: every request is answered with an empty
//! `200` reply, and turned into a multi-line log record holding its headers,
//! its query string and its body.

pub mod outside;
pub mod record;
pub mod handler;
pub mod laws;
