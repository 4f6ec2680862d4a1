use vstd::prelude::*;

verus! {

/// The client-mode snapshot: which operating mode the appliance is in.
#[derive(Clone)]
pub struct ConfigJson {
    pub client_mode: String,
}

/// Whether a client mode is the listening (bridge) mode.
pub open spec fn listen_mode(client_mode: Seq<char>) -> bool {
    client_mode == "BRIDGE"@
}

impl ConfigJson {
    pub fn is_listen_mode(&self) -> (r: bool)
        ensures
            r == listen_mode(self.client_mode@),
    {
        let bridge = "BRIDGE".to_string();
        self.client_mode == bridge
    }
}

impl Default for ConfigJson {
    fn default() -> (r: Self)
        ensures
            r.client_mode@ == Seq::<char>::empty(),
    {
        Self { client_mode: String::new() }
    }
}

} // verus!
