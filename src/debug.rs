//! The rule that decides which log messages the console logger shows.
use vstd::prelude::*;

verus! {

/// Whether a message logged under `target` comes from this library: its
/// target starts with the library's name.
pub open spec fn own_target(target: Seq<char>) -> bool {
    let prefix = "rollforgrue"@;
    prefix.len() <= target.len() && target.subrange(0, prefix.len() as int) == prefix
}

/// Whether `prefix` is a prefix of `s`.
fn has_prefix(s: &str, prefix: &str) -> (r: bool)
    ensures
        r == (prefix@.len() <= s@.len() && s@.subrange(0, prefix@.len() as int) == prefix@),
{
    let n: usize = prefix.unicode_len();
    let m: usize = s.unicode_len();
    if n > m {
        false
    } else {
        s.substring_char(0, n).to_owned() == prefix.to_owned()
    }
}

/// A simple console logger, which shows only this library's messages.
pub struct Debug {}

impl Debug {
    /// Whether a message logged under `target` is shown.
    pub fn enabled(&self, target: &str) -> (r: bool)
        ensures
            r == own_target(target@),
    {
        has_prefix(target, "rollforgrue")
    }
}

} // verus!
