//! A greeting contract, the platform's smallest deployment check.

use vstd::prelude::*;

verus! {

/// The greeting contract.
pub struct HelloOrivex;

impl HelloOrivex {
    /// Returns the greeting `["Hello", "Orivex", name]`.
    pub fn hello(name: String) -> (v: Vec<String>)
        ensures
            v@.len() == 3,
            v@[0]@ == "Hello"@,
            v@[1]@ == "Orivex"@,
            v@[2]@ == name@,
    {
        let mut v: Vec<String> = Vec::new();
        v.push("Hello".to_owned());
        v.push("Orivex".to_owned());
        v.push(name);
        v
    }

    /// Returns the welcome message `["Welcome", "to", "Orivex", user]`.
    pub fn welcome(user: String) -> (v: Vec<String>)
        ensures
            v@.len() == 4,
            v@[0]@ == "Welcome"@,
            v@[1]@ == "to"@,
            v@[2]@ == "Orivex"@,
            v@[3]@ == user@,
    {
        let mut v: Vec<String> = Vec::new();
        v.push("Welcome".to_owned());
        v.push("to".to_owned());
        v.push("Orivex".to_owned());
        v.push(user);
        v
    }
}

} // verus!
