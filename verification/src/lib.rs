//! Verified core of a purchase-order tracking backend.
//!
//! The library builds and checks every string that the backend exchanges with
//! remote services: OAuth authorization URLs, token-grant form bodies, Drive
//! search queries, Forms API request bodies, RFC 2822 mail messages, and the
//! uniform failure strings returned to the caller.  The surrounding process
//! performs the actual HTTP and SMTP transport and hands the plain values
//! (status codes, response bodies, callback URLs) back to this library.

pub mod api;
pub mod codes;
pub mod drive;
pub mod forms;
pub mod gmail;
pub mod mail;
pub mod model;
pub mod token;
pub mod numfmt;
pub mod oauth;
pub mod strutil;
pub mod urlenc;
