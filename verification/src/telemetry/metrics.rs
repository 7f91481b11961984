use vstd::prelude::*;

verus! {

/// Counts shown on the diagnostics panel.
#[derive(Debug)]
pub struct DiagnosticsSnapshot {
    pub discovered_peer_count: usize,
    pub trusted_peer_count: usize,
    pub layout_count: usize,
    pub config_path: String,
}

} // verus!
