use vstd::prelude::*;

verus! {

/// A capability plugin that the bootstrap sequence registers with the host:
/// diagnostic logging, embedded relational storage, or outbound HTTP.
#[derive(Clone, Copy, Debug, PartialEq, Eq, Structural)]
pub enum Capability {
    Logging,
    Sql,
    Http,
}

} // verus!
