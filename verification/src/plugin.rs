use vstd::prelude::*;

verus! {

/// The record a scan pass hands back to the host. The scanning engine is
/// an outside collaborator that consumes the seekable stream and reports
/// its findings to the host itself, so nothing is recorded here yet.
#[derive(Debug)]
pub struct Results {}

impl Default for Results {
    fn default() -> (r: Results)
        ensures
            r == (Results {}),
    {
        Results {}
    }
}

/// The host-facing scan pass over one object. The pass itself only wires
/// outside collaborators together — it resolves the object in the host's
/// tree, opens its handle, drains the resulting stream and hands the
/// bytes to the scanning engine — so it carries no state of its own; the
/// verified part of that work lives in the catalog, handle and file
/// modules.
pub struct YaraPlugin {}

impl YaraPlugin {
    /// The name under which the pass registers with the host and tags
    /// the nodes it has visited.
    pub fn name(&self) -> (s: String)
        ensures
            s@ == "yara"@,
    {
        String::from_str("yara")
    }
}

impl Default for YaraPlugin {
    fn default() -> (r: YaraPlugin)
        ensures
            r == (YaraPlugin {}),
    {
        YaraPlugin {}
    }
}

} // verus!
