use vstd::prelude::*;

pub mod fields;
pub mod text;
pub mod template;
pub mod pki;
pub mod custody;
pub mod store;
pub mod authority;
pub mod registry;

pub mod node;
pub mod monitor;
pub mod identity;
pub mod pod;
