use vstd::prelude::*;

verus! {

/// Errors reported by the binding.
#[derive(Debug)]
pub enum Error {
    /// The text is not a key expression in canonical form; it carries the
    /// rejected text.
    InvalidKeyExpr(String),
    /// The scouting mask is not a combination of the router (1), peer (2)
    /// and client (4) bits; it carries the rejected mask.
    InvalidWhatAmI(i32),
    /// An operation on a Zenoh session failed; it carries Zenoh's message.
    Zenoh(String),
}

} // verus!
