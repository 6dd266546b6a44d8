//! Verified core of a desktop shell that manages a private Node.js runtime:
//! platform artifact selection, checksum handling, pid files, the install and
//! server start-up flows, and the application menu model.
use vstd::prelude::*;

pub mod artifact;
pub mod text;
pub mod pid;
pub mod error;
pub mod status;
pub mod checksum;
pub mod menu;
pub mod server;
pub mod install;

verus! {

/// Greeting text returned to the front end.
pub fn greet(name: &str) -> (r: String)
    ensures
        r@ == "Hello, "@ + name@ + "! You've been greeted from Rust!"@,
{
    let mut r = String::from_str("Hello, ");
    r.append(name);
    r.append("! You've been greeted from Rust!");
    r
}

} // verus!
