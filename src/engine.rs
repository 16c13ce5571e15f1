use vstd::prelude::*;

use crate::ble::BleDevice;
use crate::discovery::Discovery;
use crate::error::Error;
use crate::registry::Transfer;
use crate::session::{ConnectionStatus, SessionManager};

verus! {

/// The engine's owned state: the radio peer list, the session and the
/// transfer registry.
pub struct Engine {
    pub discovery: Discovery<BleDevice>,
    pub connection: SessionManager,
    pub transfer: Transfer,
}

impl Engine {
    pub fn new() -> (r: Result<Engine, Error>)
        ensures
            r matches Ok(e) && {
                &&& !e.discovery@.running
                &&& e.discovery@.devices.len() == 0
                &&& e.connection@ == ConnectionStatus::Disconnected
                &&& e.transfer@.len() == 0
            },
    {
        let transfer = match Transfer::new() {
            Ok(t) => t,
            Err(e) => {
                return Err(e);
            },
        };
        Ok(Engine { discovery: Discovery::new(), connection: SessionManager::new(), transfer })
    }

    /// Starts discovery; `Ok(true)` when the caller must start a listener.
    pub fn start_discovery(&mut self) -> (r: Result<bool, Error>)
        ensures
            r matches Ok(spawn) && (final(self).discovery@, spawn) == crate::discovery::start_step(old(self).discovery@),
            final(self).connection@ == old(self).connection@,
            final(self).transfer@ == old(self).transfer@,
    {
        Ok(self.discovery.start())
    }

    pub fn stop_discovery(&mut self) -> (r: Result<(), Error>)
        ensures
            r is Ok,
            final(self).discovery@ == crate::discovery::stop_step(old(self).discovery@),
            final(self).connection@ == old(self).connection@,
            final(self).transfer@ == old(self).transfer@,
    {
        self.discovery.stop();
        Ok(())
    }
}

} // verus!
