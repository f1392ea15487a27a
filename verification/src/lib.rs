//! A minimal HTTP server library: a fixed greeting route, a JSON
//! user-creation endpoint, and a static-file reader that maps file-read
//! outcomes to HTTP responses. The handlers here are pure: the surrounding
//! binary does the listening, JSON transport and file reads, and hands the
//! decoded values in.

pub mod response;
pub mod router;
pub mod static_files;
pub mod users;
