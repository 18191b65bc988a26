//! The rules of an anonymous confession board: what each request is answered
//! with, given what storage reported.

pub mod assets;
pub mod config;
pub mod errors;
pub mod handlers;
pub mod models;
pub mod response;
