//! The decisions behind the WordPuppi desktop shell, stated and proved.
#[allow(unused_imports)]
use vstd::prelude::*;

pub mod command;
pub mod dev_backend;
pub mod lifecycle;
pub mod menu;
pub mod navigation;
pub mod path;
pub mod terminal;
pub mod terminal_laws;
pub mod text;
pub mod update;
pub mod update_laws;
pub mod workspace;
