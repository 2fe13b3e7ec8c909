//! Errors of the server application.

use vstd::prelude::*;

verus! {

/// Possible errors while starting the server application.
#[derive(Debug, Copy, Clone, PartialEq, Eq, Structural)]
pub enum AppManagerInitErr {
    /// Error while creating the network interface for communicating with the GUIs.
    NetworkInterfaceCreation,
}

impl AppManagerInitErr {
    /// Human readable description of the error.
    pub fn message(&self) -> (res: &'static str)
        ensures
            res@ == "Failed to create the server's network interface."@,
    {
        match self {
            AppManagerInitErr::NetworkInterfaceCreation => {
                "Failed to create the server's network interface."
            },
        }
    }
}

} // verus!
