//! How to reach the registry.

use vstd::prelude::*;

verus! {

/// Connection settings of the registry client.
#[derive(Debug, PartialEq, Eq)]
pub struct Config {
    /// The address of the registry agent. It includes the protocol to
    /// connect over, such as `http` or `https`.
    pub address: String,
}

/// The mathematical value of a [`Config`].
pub struct ConfigView {
    pub address: Seq<char>,
}

impl View for Config {
    type V = ConfigView;

    open spec fn view(&self) -> ConfigView {
        ConfigView { address: self.address@ }
    }
}

impl Clone for Config {
    fn clone(&self) -> (copy: Self)
        ensures
            copy@ == self@,
    {
        Config { address: self.address.clone() }
    }
}

} // verus!
