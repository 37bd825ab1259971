//! Shared helpers for the port-based node shells.

use vstd::prelude::*;

verus! {

/// A one-element port name list.
pub fn port_vec_1(a: &str) -> (r: Vec<String>)
    ensures
        r@.len() == 1,
        r@[0]@ == a@,
{
    let mut v: Vec<String> = Vec::new();
    v.push(a.to_owned());
    v
}

/// A two-element port name list.
pub fn port_vec_2(a: &str, b: &str) -> (r: Vec<String>)
    ensures
        r@.len() == 2,
        r@[0]@ == a@,
        r@[1]@ == b@,
{
    let mut v: Vec<String> = Vec::new();
    v.push(a.to_owned());
    v.push(b.to_owned());
    v
}

} // verus!
