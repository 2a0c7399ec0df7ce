//! Process-wide selection of the target device. Only the persistent unique
//! id of a device is safe for later lookups; the numeric id is transient and
//! not stable across reconnects. The discovery protocol itself is an
//! external collaborator: the application hands this module the plain
//! descriptors it obtained.

use vstd::prelude::*;

verus! {

/// Descriptor of a connected device as discovery reported it.
#[derive(Debug)]
pub struct DeviceInfo {
    /// Human-readable device name.
    pub name: String,
    /// Transient numeric id, valid only for the current connection.
    pub id: u32,
    /// Persistent unique id, the one safe to look the device up by.
    pub uuid: String,
}

/// The mathematical shape of a [`DeviceInfo`].
#[verifier::ext_equal]
pub struct DeviceModel {
    pub name: Seq<char>,
    pub id: u32,
    pub uuid: Seq<char>,
}

impl View for DeviceInfo {
    type V = DeviceModel;

    open spec fn view(&self) -> DeviceModel {
        DeviceModel { name: self.name@, id: self.id, uuid: self.uuid@ }
    }
}

impl Clone for DeviceInfo {
    fn clone(&self) -> (r: Self)
        ensures
            r@ == self@,
    {
        DeviceInfo { name: self.name.clone(), id: self.id, uuid: self.uuid.clone() }
    }
}

/// Failure to resolve a usable device.
#[derive(Clone, Copy, PartialEq, Eq, Structural, Debug)]
pub enum DeviceError {
    /// No device has been selected yet.
    NotSelected,
    /// Discovery no longer lists the persistent id.
    NotFound,
    /// Discovery listed the device but it could not be reached.
    ConnectionFailed,
}

impl DeviceError {
    /// The user-visible description of the failure.
    pub fn message(&self) -> (r: String)
        ensures
            self is NotSelected ==> r@ == "No device selected"@,
            self is NotFound ==> r@ == "Failed to get device"@,
            self is ConnectionFailed ==> r@ == "Failed to connect to usbmuxd"@,
    {
        match self {
            DeviceError::NotSelected => "No device selected".to_owned(),
            DeviceError::NotFound => "Failed to get device".to_owned(),
            DeviceError::ConnectionFailed => "Failed to connect to usbmuxd".to_owned(),
        }
    }
}

/// The single slot holding the currently selected device, last write wins.
pub struct DeviceRegistry {
    selected: Option<DeviceInfo>,
}

impl View for DeviceRegistry {
    type V = Option<DeviceModel>;

    closed spec fn view(&self) -> Option<DeviceModel> {
        match self.selected {
            Some(d) => Some(d@),
            None => None,
        }
    }
}

impl DeviceRegistry {
    /// A registry with no device selected yet.
    pub fn new() -> (r: Self)
        ensures
            r@ is None,
    {
        DeviceRegistry { selected: None }
    }

    /// Selects a device, overwriting any previous selection unconditionally.
    /// A selection is never explicitly cleared.
    pub fn set(&mut self, device: DeviceInfo)
        ensures
            final(self)@ == Some(device@),
    {
        self.selected = Some(device);
    }

    /// The current selection, if any.
    pub fn get(&self) -> (r: Option<DeviceInfo>)
        ensures
            match r {
                Some(d) => self@ == Some(d@),
                None => self@ is None,
            },
    {
        match &self.selected {
            Some(d) => Some(d.clone()),
            None => None,
        }
    }
}

/// Builds the descriptor for one discovered device: the transient numeric id
/// and the persistent id come from discovery; the display name comes from a
/// separate query that may fail, in which case a placeholder name is used.
pub fn describe_device(udid: String, device_id: u32, name: Option<String>) -> (r: DeviceInfo)
    ensures
        r@.id == device_id,
        r@.uuid == udid@,
        name matches Some(n) ==> r@.name == n@,
        name is None ==> r@.name == "Unknown Device"@,
{
    let display = match name {
        Some(n) => n,
        None => "Unknown Device".to_owned(),
    };
    DeviceInfo { name: display, id: device_id, uuid: udid }
}

/// Finds the first listed device carrying the persistent id, the only id a
/// lookup may use.
pub fn find_by_uuid(devices: &Vec<DeviceInfo>, uuid: &str) -> (r: Option<usize>)
    ensures
        r matches Some(i) ==> i < devices@.len() && devices@[i as int]@.uuid == uuid@,
        r is None ==> forall|i: int|
            0 <= i < devices@.len() ==> (#[trigger] devices@[i])@.uuid != uuid@,
{
    let n = devices.len();
    let mut i: usize = 0;
    while i < n
        invariant
            i <= n,
            n == devices@.len(),
            forall|j: int| 0 <= j < i ==> (#[trigger] devices@[j])@.uuid != uuid@,
        decreases n - i,
    {
        if crate::text::str_eq(devices[i].uuid.as_str(), uuid) {
            return Some(i);
        }
        i += 1;
    }
    None
}

} // verus!
