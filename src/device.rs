use crate::relay::TransportError;
use crate::remotekeyboard::RemoteKeyboard;
use vstd::prelude::*;

verus! {

/// Bus name of the service that exposes the paired devices.
pub const SERVICE: &'static str = "org.kde.kdeconnect";

/// Interface of a device object.
pub const DEVICE_INTERFACE: &'static str = "org.kde.kdeconnect.device";

/// Property of a device object that holds its display name.
pub const NAME_PROPERTY: &'static str = "name";

/// Method of a device object that tells whether a plugin is loaded.
pub const HAS_PLUGIN_METHOD: &'static str = "hasPlugin";

/// Interface and method of the object that lists the reachable devices.
pub const DAEMON_PATH: &'static str = "/modules/kdeconnect";
pub const DAEMON_INTERFACE: &'static str = "org.kde.kdeconnect.daemon";
pub const DEVICES_METHOD: &'static str = "devices";

/// Time allowed to one remote call, in milliseconds.
pub const CALL_TIMEOUT_MS: u64 = 5000;

/// Prefix of every device object path; the identifier follows it.
pub const DEVICES_ROOT: &'static str = "/modules/kdeconnect/devices/";

/// The object path of the device with identifier `id`.
pub open spec fn device_path(id: Seq<char>) -> Seq<char> {
    DEVICES_ROOT@ + id
}

/// Handle on one remote device: it binds an address and makes no call.
pub struct Device {
    id: String,
}

impl View for Device {
    type V = Seq<char>;

    /// The device's identifier.
    closed spec fn view(&self) -> Seq<char> {
        self.id@
    }
}

impl Device {
    pub fn new(id: String) -> (r: Device)
        ensures
            r@ == id@,
    {
        Device { id }
    }

    pub fn get_id(&self) -> (r: &str)
        ensures
            r@ == self@,
    {
        self.id.as_str()
    }

    /// The path under which the device's own properties and methods live.
    pub fn object_path(&self) -> (r: String)
        ensures
            r@ == device_path(self@),
    {
        let mut p = DEVICES_ROOT.to_owned();
        p.append(self.id.as_str());
        p
    }

    /// The keyboard session of this device.
    pub fn get_keyboard(&self) -> (r: RemoteKeyboard)
        ensures
            r.id@ == self@,
    {
        RemoteKeyboard::new(self.id.as_str())
    }
}

/// The name shown for an endpoint: the fetched name, or an empty name when
/// the fetch failed.
pub open spec fn name_or_empty(fetched: Result<String, TransportError>) -> Seq<char> {
    match fetched {
        Ok(name) => name@,
        Err(_) => Seq::empty(),
    }
}

/// The display names of the listed endpoints, in listing order, from the
/// outcomes of fetching each one's name.
pub fn display_names(fetched: &Vec<Result<String, TransportError>>) -> (r: Vec<String>)
    ensures
        r@.len() == fetched@.len(),
        forall|i: int| 0 <= i < r@.len() ==> (#[trigger] r@[i])@ == name_or_empty(fetched@[i]),
{
    let mut names: Vec<String> = Vec::new();
    let mut i: usize = 0;
    while i < fetched.len()
        invariant
            i <= fetched@.len(),
            names@.len() == i,
            forall|j: int| 0 <= j < i ==> (#[trigger] names@[j])@ == name_or_empty(fetched@[j]),
        decreases fetched@.len() - i,
    {
        let name = match &fetched[i] {
            Ok(n) => n.clone(),
            Err(_) => String::new(),
        };
        names.push(name);
        i = i + 1;
    }
    names
}

} // verus!
