use vstd::prelude::*;

verus! {

/// The runtime contract version that events are stamped with unless a rollback
/// version is configured.
pub const CONTRACT_VERSION: &'static str = "v1";

} // verus!
