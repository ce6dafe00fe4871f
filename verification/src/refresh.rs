use vstd::prelude::*;

verus! {

/// The maintenance command's switches: where the kubeconfig lives, next to
/// whose cache directory the credential files are rewritten.
pub struct RefreshAksArgs {
    pub kubeconfig: String,
}

} // verus!
