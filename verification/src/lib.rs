//! Core logic of the Mobus Operandi website generator and of its development
//! server: the state machine that keeps at most one builder process alive,
//! the mob status vocabulary and its legend, the pages of the site and the
//! files they refer to, schema documentation helpers, and the small text
//! formats the site is made of.

pub mod components;
pub mod dev;
pub mod driver;
pub mod expected_files;
pub mod file_spec;
pub mod font;
pub mod json;
mod key_order;
pub mod link;
pub mod markdown;
pub mod mob;
pub mod pages;
pub mod participant;
pub mod schema;
pub mod status;
pub mod text;
pub mod url;

