use vstd::prelude::*;

verus! {

/// The plugin's identity: its name and version, and that it is always ready.
pub struct IdentityService {}

impl IdentityService {
    pub fn new() -> (r: IdentityService)
        ensures
            r == (IdentityService {}),
    {
        IdentityService {}
    }

    /// The plugin's name and vendor version.
    pub fn get_plugin_info(&self) -> (r: (String, String))
        ensures
            r.0@ == "csi.k8s.cacsi-driver"@,
            r.1@ == "0.1.0"@,
    {
        (String::from_str("csi.k8s.cacsi-driver"), String::from_str("0.1.0"))
    }

    /// The plugin serves the node side only: it announces no capability.
    pub fn get_plugin_capabilities(&self) -> (r: Vec<String>)
        ensures
            r@.len() == 0,
    {
        Vec::new()
    }

    pub fn probe(&self) -> (r: bool)
        ensures
            r,
    {
        true
    }
}

} // verus!
