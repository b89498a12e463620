use vstd::prelude::*;

use crate::text::same_text;

verus! {

/// A playback endpoint as the service reports it. An empty `id` means
/// that there is no device.
#[derive(Clone, Debug, PartialEq, Eq)]
pub struct Device {
    pub id: String,
    pub name: String,
    pub is_active: bool,
}

/// Why a menu choice could not be resolved to a device.
#[derive(Clone, Copy, Debug, PartialEq, Eq, Structural)]
pub enum SelectionError {
    /// No device is known.
    Empty,
    /// No known device has the chosen name.
    NotFound,
}

impl Device {
    /// The empty device: no id, no name, not active.
    pub open spec fn is_none(&self) -> bool {
        &&& self.id@.len() == 0
        &&& self.name@.len() == 0
        &&& !self.is_active
    }

    /// Whether the device can be targeted by playback commands.
    pub open spec fn is_set(&self) -> bool {
        self.id@.len() > 0
    }

    /// The empty device, which stands for "no device".
    pub fn none() -> (r: Device)
        ensures
            r.is_none(),
    {
        Device { id: String::new(), name: String::new(), is_active: false }
    }

    /// A device as listed by the service, where a missing id reads as empty.
    pub fn from_report(id: Option<String>, name: String, is_active: bool) -> (r: Device)
        ensures
            r.id@ == (match id {
                Some(s) => s@,
                None => Seq::<char>::empty(),
            }),
            r.name == name,
            r.is_active == is_active,
    {
        let id = match id {
            Some(s) => s,
            None => String::new(),
        };
        Device { id, name, is_active }
    }

    /// Whether the device has an id.
    pub fn has_id(&self) -> (r: bool)
        ensures
            r == self.is_set(),
    {
        !self.id.as_str().is_empty()
    }

    /// A copy of the device.
    pub fn duplicate(&self) -> (r: Device)
        ensures
            r == *self,
    {
        Device { id: self.id.clone(), name: self.name.clone(), is_active: self.is_active }
    }
}

impl Default for Device {
    fn default() -> (r: Device)
        ensures
            r.is_none(),
    {
        Device::none()
    }
}

/// Whether a device listed as `d` becomes the active device on a refresh.
pub open spec fn qualifies(d: Device) -> bool {
    d.is_active && d.is_set()
}

/// The first device of `s` that qualifies as active, if any.
pub open spec fn first_qualifying(s: Seq<Device>) -> Option<Device>
    decreases s.len(),
{
    if s.len() == 0 {
        None
    } else if qualifies(s[0]) {
        Some(s[0])
    } else {
        first_qualifying(s.drop_first())
    }
}

/// The first device of `s` whose name is `name`, if any.
pub open spec fn first_named(s: Seq<Device>, name: Seq<char>) -> Option<Device>
    decreases s.len(),
{
    if s.len() == 0 {
        None
    } else if s[0].name@ == name {
        Some(s[0])
    } else {
        first_named(s.drop_first(), name)
    }
}

/// `d` marked active.
pub open spec fn activated(d: Device) -> Device {
    Device { is_active: true, ..d }
}

/// The devices last listed by the service, and the one commands target.
#[derive(Clone, Debug)]
pub struct DeviceRegistry {
    pub devices: Vec<Device>,
    pub active_device: Device,
}

impl DeviceRegistry {
    /// No devices known, none active.
    pub fn new() -> (r: DeviceRegistry)
        ensures
            r.devices@.len() == 0,
            r.active_device.is_none(),
    {
        DeviceRegistry { devices: Vec::new(), active_device: Device::none() }
    }

    /// The device that a fresh listing makes active: the first one marked
    /// active that has an id, or the empty device.
    pub fn pick_active(devices: &Vec<Device>) -> (r: Device)
        ensures
            match first_qualifying(devices@) {
                Some(d) => r == d,
                None => r.is_none(),
            },
    {
        let mut i: usize = 0;
        assert(devices@.subrange(0, devices@.len() as int) =~= devices@);
        while i < devices.len()
            invariant
                i <= devices@.len(),
                first_qualifying(devices@) == first_qualifying(devices@.subrange(i as int, devices@.len() as int)),
            decreases devices@.len() - i,
        {
            let ghost rest = devices@.subrange(i as int, devices@.len() as int);
            assert(rest.drop_first() =~= devices@.subrange(i + 1, devices@.len() as int));
            if devices[i].is_active && devices[i].has_id() {
                return devices[i].duplicate();
            }
            i = i + 1;
        }
        Device::none()
    }

    /// Replaces the known devices with a fresh listing and makes active the
    /// device that `pick_active` chooses from it; returns that device.
    pub fn refresh(&mut self, devices: Vec<Device>) -> (r: Device)
        ensures
            final(self).devices@ == devices@,
            final(self).active_device == r,
            match first_qualifying(devices@) {
                Some(d) => r == d,
                None => r.is_none(),
            },
    {
        let chosen = DeviceRegistry::pick_active(&devices);
        self.devices = devices;
        self.active_device = chosen.duplicate();
        chosen
    }

    /// The names of the known devices, in order, as offered in a menu.
    pub fn names(&self) -> (r: Vec<String>)
        ensures
            r@.len() == self.devices@.len(),
            forall|i: int| 0 <= i < r@.len() ==> r@[i] == #[trigger] self.devices@[i].name,
    {
        let mut r: Vec<String> = Vec::new();
        let mut i: usize = 0;
        while i < self.devices.len()
            invariant
                i <= self.devices@.len(),
                r@.len() == i,
                forall|k: int| 0 <= k < i ==> r@[k] == #[trigger] self.devices@[k].name,
            decreases self.devices@.len() - i,
        {
            r.push(self.devices[i].name.clone());
            i = i + 1;
        }
        r
    }

    /// The known device chosen by its name, marked active: the first one
    /// with that name.
    pub fn select(&self, name: &str) -> (r: Result<Device, SelectionError>)
        ensures
            self.devices@.len() == 0 ==> r == Err::<Device, SelectionError>(SelectionError::Empty),
            self.devices@.len() > 0 ==> match first_named(self.devices@, name@) {
                Some(d) => r == Ok::<Device, SelectionError>(activated(d)),
                None => r == Err::<Device, SelectionError>(SelectionError::NotFound),
            },
    {
        if self.devices.len() == 0 {
            return Err(SelectionError::Empty);
        }
        let mut i: usize = 0;
        assert(self.devices@.subrange(0, self.devices@.len() as int) =~= self.devices@);
        while i < self.devices.len()
            invariant
                i <= self.devices@.len(),
                first_named(self.devices@, name@) == first_named(
                    self.devices@.subrange(i as int, self.devices@.len() as int),
                    name@,
                ),
            decreases self.devices@.len() - i,
        {
            let ghost rest = self.devices@.subrange(i as int, self.devices@.len() as int);
            assert(rest.drop_first() =~= self.devices@.subrange(i + 1, self.devices@.len() as int));
            if same_text(self.devices[i].name.as_str(), name) {
                let d = &self.devices[i];
                return Ok(Device { id: d.id.clone(), name: d.name.clone(), is_active: true });
            }
            i = i + 1;
        }
        Err(SelectionError::NotFound)
    }

    /// Takes in the outcome of transferring playback to `device`: on success
    /// `device` becomes the active device, marked active; on failure nothing
    /// changes and the cause is handed back.
    pub fn activate(&mut self, device: Device, transfer: Result<(), String>) -> (r: Result<(), String>)
        ensures
            r == transfer,
            transfer is Ok ==> final(self).active_device == activated(device),
            transfer is Err ==> final(self).active_device == old(self).active_device,
            final(self).devices == old(self).devices,
    {
        if transfer.is_ok() {
            self.active_device = Device { is_active: true, ..device };
        }
        transfer
    }
}

} // verus!
