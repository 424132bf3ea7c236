//! A typed client for the Last.fm web service that does no I/O of its own.
//!
//! The library builds the request URLs, classifies a reply by its HTTP status
//! and decodes its JSON body into domain values or a structured error. Sending
//! the request is left to the caller, who hands the reply back as plain data.

pub mod lastfm;
