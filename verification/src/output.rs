//! The error message shown for a failed external command: the trimmed error
//! stream when it says anything, else the trimmed output stream, else a
//! generic complaint.

use vstd::prelude::*;

use crate::chars::{chars_of, string_from_chars, trim_edges, trimmed_edges, TrimClass};

verus! {

pub open spec fn command_failed_msg() -> Seq<char> {
    seq!['C', 'o', 'm', 'm', 'a', 'n', 'd', ' ', 'f', 'a', 'i', 'l', 'e', 'd']
}

/// What `combine_output` returns for the captured streams of a failed
/// command.
pub open spec fn combined_output(stdout: Seq<char>, stderr: Seq<char>) -> Seq<char> {
    let e = trimmed_edges(stderr, TrimClass::Space);
    let o = trimmed_edges(stdout, TrimClass::Space);
    if e.len() > 0 {
        e
    } else if o.len() > 0 {
        o
    } else {
        command_failed_msg()
    }
}

/// Build the message for a failed command from its captured streams.
pub fn combine_output(stdout: &str, stderr: &str) -> (r: String)
    ensures
        r@ == combined_output(stdout@, stderr@),
{
    let ev = chars_of(stderr);
    let e = trim_edges(&ev, TrimClass::Space);
    if e.len() > 0 {
        return string_from_chars(&e);
    }
    let ov = chars_of(stdout);
    let o = trim_edges(&ov, TrimClass::Space);
    if o.len() > 0 {
        return string_from_chars(&o);
    }
    let msg: Vec<char> = vec!['C', 'o', 'm', 'm', 'a', 'n', 'd', ' ', 'f', 'a', 'i', 'l', 'e', 'd'];
    assert(msg@ =~= command_failed_msg());
    string_from_chars(&msg)
}

} // verus!
