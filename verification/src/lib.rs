//! Verified core of the MeNote desktop launcher.
#![allow(unused_imports)]

pub mod text;
pub mod footer;
pub mod escape;
pub mod pages;
pub mod service;
pub mod layout;
pub mod runtime;
pub mod messages;
pub mod payload;
