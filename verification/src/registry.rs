//! The server's table of connected windows.

use crate::device::Device;
use crate::types::{WindowInfo, WindowInfoView};
use std::collections::HashMap;
use vstd::prelude::*;

verus! {

broadcast use vstd::std_specs::hash::group_hash_axioms;

/// The devices that clients have connected to, by window handle.
///
/// A handle has an entry from the first successful connect on. A second
/// connect to the same handle replaces the entry; nothing ever removes one.
pub struct DeviceRegistry {
    devices: HashMap<usize, Device>,
}

impl View for DeviceRegistry {
    type V = Map<usize, WindowInfoView>;

    closed spec fn view(&self) -> Map<usize, WindowInfoView> {
        Map::new(|hwnd: usize| self.devices@.contains_key(hwnd), |hwnd: usize| self.devices@[hwnd]@)
    }
}

/// Whether every entry stands under the handle of its own window.
pub open spec fn keyed_by_handle(entries: Map<usize, WindowInfoView>) -> bool {
    forall|hwnd: usize| entries.contains_key(hwnd) ==> (#[trigger] entries[hwnd]).hwnd == hwnd
}

/// The registry after a connect to the window `info`: the entry of the
/// window's handle is `info`, every other entry is as before.
pub open spec fn registered(
    entries: Map<usize, WindowInfoView>,
    info: WindowInfoView,
) -> Map<usize, WindowInfoView> {
    entries.insert(info.hwnd, info)
}

/// What looking a handle up gives: the entry, if the handle has one.
pub open spec fn resolved(entries: Map<usize, WindowInfoView>, hwnd: usize) -> Option<
    WindowInfoView,
> {
    if entries.contains_key(hwnd) {
        Some(entries[hwnd])
    } else {
        None
    }
}

impl DeviceRegistry {
    /// Every device is stored under the handle of its window.
    #[verifier::type_invariant]
    spec fn well_keyed(&self) -> bool {
        forall|hwnd: usize|
            self.devices@.contains_key(hwnd) ==> (#[trigger] self.devices@[hwnd])@.hwnd == hwnd
    }

    /// A registry without entries.
    pub fn new() -> (registry: Self)
        ensures
            registry@ == Map::<usize, WindowInfoView>::empty(),
    {
        let registry = Self { devices: HashMap::new() };
        assert(registry@ =~= Map::<usize, WindowInfoView>::empty());
        registry
    }

    /// Binds a device to the window and stores it under the window's handle,
    /// in place of any device that was stored there. Hands back a copy of the
    /// device.
    pub fn register(&mut self, info: WindowInfo) -> (device: Device)
        ensures
            final(self)@ == registered(old(self)@, info@),
            device@ == info@,
    {
        proof {
            use_type_invariant(&*self);
        }
        let hwnd: usize = info.hwnd;
        let device = Device::new(info);
        let copy = device.clone();
        // The map changes outside the registry, which is whole at every call.
        let mut devices: HashMap<usize, Device> = HashMap::new();
        core::mem::swap(&mut self.devices, &mut devices);
        devices.insert(hwnd, device);
        core::mem::swap(&mut self.devices, &mut devices);
        assert(self@ =~= registered(old(self)@, info@));
        copy
    }

    /// The device that is stored under a handle, or `None` where no client
    /// has connected to that handle.
    pub fn resolve(&self, hwnd: usize) -> (found: Option<&Device>)
        ensures
            match found {
                Some(device) => resolved(self@, hwnd) == Some(device@) && device@.hwnd == hwnd,
                None => resolved(self@, hwnd) is None,
            },
            keyed_by_handle(self@),
    {
        proof {
            use_type_invariant(self);
        }
        self.devices.get(&hwnd)
    }

    /// Whether a handle has an entry.
    pub fn contains(&self, hwnd: usize) -> (b: bool)
        ensures
            b == self@.contains_key(hwnd),
    {
        self.devices.contains_key(&hwnd)
    }

    /// The number of entries.
    pub fn len(&self) -> (n: usize)
        ensures
            n == self@.dom().len(),
            self@.dom().finite(),
    {
        assert(self@.dom() =~= self.devices@.dom());
        self.devices.len()
    }
}

/// Connecting twice to one handle leaves one entry for it, and the entry is
/// the identity of the second connect. The other entries are untouched.
pub proof fn lemma_register_twice(
    entries: Map<usize, WindowInfoView>,
    first: WindowInfoView,
    second: WindowInfoView,
)
    requires
        first.hwnd == second.hwnd,
    ensures
        registered(registered(entries, first), second) == registered(entries, second),
        resolved(registered(registered(entries, first), second), second.hwnd) == Some(second),
        registered(registered(entries, first), second).dom() == entries.dom().insert(second.hwnd),
        entries.dom().finite() ==> registered(registered(entries, first), second).dom().len()
            == registered(entries, first).dom().len(),
{
    assert(registered(registered(entries, first), second) =~= registered(entries, second));
    assert(registered(entries, first).dom() =~= registered(entries, second).dom());
}

/// A connect keeps every entry under the handle of its window.
pub proof fn lemma_registered_keeps_keys(entries: Map<usize, WindowInfoView>, info: WindowInfoView)
    requires
        keyed_by_handle(entries),
    ensures
        keyed_by_handle(registered(entries, info)),
{
}

/// A handle that has no entry resolves to nothing, and a connect to another
/// handle does not change that.
pub proof fn lemma_unregistered_is_missing(
    entries: Map<usize, WindowInfoView>,
    hwnd: usize,
    other: WindowInfoView,
)
    ensures
        resolved(Map::<usize, WindowInfoView>::empty(), hwnd) is None,
        !entries.contains_key(hwnd) ==> resolved(entries, hwnd) is None,
        !entries.contains_key(hwnd) && other.hwnd != hwnd ==> resolved(
            registered(entries, other),
            hwnd,
        ) is None,
        resolved(entries, hwnd) is Some <==> entries.contains_key(hwnd),
{
}

/// A handle resolves to the identity of the last connect to it.
pub proof fn lemma_registered_resolves(entries: Map<usize, WindowInfoView>, info: WindowInfoView)
    ensures
        resolved(registered(entries, info), info.hwnd) == Some(info),
        forall|hwnd: usize|
            hwnd != info.hwnd ==> #[trigger] resolved(registered(entries, info), hwnd) == resolved(
                entries,
                hwnd,
            ),
{
}

} // verus!
