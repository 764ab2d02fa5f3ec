//! The server: an address to listen on and the registry that its sessions share.

use crate::dispatch::{
    action_device, command_handle, complete, completed, entries_after, plan, planned, Action,
    Outcome,
};
use crate::protocol::{Command, Response};
use crate::registry::DeviceRegistry;
use crate::types::WindowInfoView;
use vstd::prelude::*;
use vstd::string::*;

verus! {

/// A server. It owns the registry of connected windows; every session of the
/// server answers its commands against this one registry.
///
/// Looking a device up and storing one are the only things that touch the
/// registry. What a device does on the host happens between `plan` and
/// `complete`, outside the server, so a slow capture of one window keeps no
/// other session from the registry.
pub struct Server {
    addr: String,
    devices: DeviceRegistry,
}

impl Server {
    /// The address that the server listens on.
    pub closed spec fn spec_addr(&self) -> Seq<char> {
        self.addr@
    }

    /// The entries of the server's registry.
    pub closed spec fn spec_devices(&self) -> Map<usize, WindowInfoView> {
        self.devices@
    }

    /// A server for an address, with an empty registry.
    pub fn new(addr: &str) -> (server: Self)
        ensures
            server.spec_addr() == addr@,
            server.spec_devices() == Map::<usize, WindowInfoView>::empty(),
    {
        Self { addr: String::from_str(addr), devices: DeviceRegistry::new() }
    }

    /// A server for every interface of the machine, on the default port.
    pub fn default_addr() -> (server: Self)
        ensures
            server.spec_addr() == "0.0.0.0:5037"@,
            server.spec_devices() == Map::<usize, WindowInfoView>::empty(),
    {
        Self::new("0.0.0.0:5037")
    }

    /// The address that the server listens on.
    pub fn addr(&self) -> (addr: &str)
        ensures
            addr@ == self.spec_addr(),
    {
        self.addr.as_str()
    }

    /// The server's registry.
    pub fn devices(&self) -> (devices: &DeviceRegistry)
        ensures
            devices@ == self.spec_devices(),
    {
        &self.devices
    }

    /// Says what a command asks of the host, given the devices that are
    /// connected now.
    pub fn plan(&self, command: Command) -> (action: Action)
        ensures
            action@ == planned(command@, self.spec_devices()),
            action_device(action@) matches Some(device) ==> device.hwnd == command_handle(command@),
    {
        plan(command, &self.devices)
    }

    /// Turns the outcome of an action into the response, and stores the
    /// device of a connect that found its window.
    pub fn complete(&mut self, action: Action, outcome: Outcome) -> (response: Response)
        ensures
            response@ == completed(action@, outcome@),
            final(self).spec_devices() == entries_after(old(self).spec_devices(), action@, outcome@),
            final(self).spec_addr() == old(self).spec_addr(),
    {
        complete(action, outcome, &mut self.devices)
    }
}

} // verus!
