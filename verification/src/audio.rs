//! Audio devices available to the voice engine.

use vstd::prelude::*;

verus! {

/// What an [`AudioDevice`] holds.
pub struct AudioDeviceView {
    pub id: Seq<char>,
    pub name: Seq<char>,
    pub is_default: bool,
}

/// An audio input or output device.
///
/// The SDK hands these back when listing or reporting devices; its
/// [`id`](Self::id) is what selects the device.
#[derive(Debug)]
pub struct AudioDevice {
    id: String,
    name: String,
    is_default: bool,
}

impl View for AudioDevice {
    type V = AudioDeviceView;

    closed spec fn view(&self) -> AudioDeviceView {
        AudioDeviceView { id: self.id@, name: self.name@, is_default: self.is_default }
    }
}

impl AudioDevice {
    /// A device with an empty id and name, not the default, to be filled in by the setters.
    pub fn new() -> (r: Self)
        ensures
            r@ == (AudioDeviceView { id: Seq::empty(), name: Seq::empty(), is_default: false }),
    {
        AudioDevice { id: String::new(), name: String::new(), is_default: false }
    }

    /// The device ID.
    pub fn id(&self) -> (r: String)
        ensures
            r@ == self@.id,
    {
        self.id.clone()
    }

    /// Set the device ID.
    pub fn set_id(&mut self, value: &str)
        ensures
            final(self)@ == (AudioDeviceView { id: value@, ..old(self)@ }),
    {
        self.id = value.to_owned();
    }

    /// The human-readable device name.
    pub fn name(&self) -> (r: String)
        ensures
            r@ == self@.name,
    {
        self.name.clone()
    }

    /// Set the device name.
    pub fn set_name(&mut self, value: &str)
        ensures
            final(self)@ == (AudioDeviceView { name: value@, ..old(self)@ }),
    {
        self.name = value.to_owned();
    }

    /// Whether this is the system's default device.
    pub fn is_default(&self) -> (r: bool)
        ensures
            r == self@.is_default,
    {
        self.is_default
    }

    /// Set whether this is the system's default device.
    pub fn set_is_default(&mut self, value: bool)
        ensures
            final(self)@ == (AudioDeviceView { is_default: value, ..old(self)@ }),
    {
        self.is_default = value;
    }
}

/// Two devices are equal when their IDs are equal.
impl PartialEq for AudioDevice {
    fn eq(&self, other: &Self) -> (r: bool) {
        self.id == other.id
    }
}

impl vstd::std_specs::cmp::PartialEqSpecImpl for AudioDevice {
    open spec fn obeys_eq_spec() -> bool {
        true
    }

    open spec fn eq_spec(&self, other: &AudioDevice) -> bool {
        self@.id == other@.id
    }
}

impl Eq for AudioDevice {}


impl Clone for AudioDevice {
    /// An independent copy: it holds what `self` holds.
    fn clone(&self) -> (r: Self)
        ensures
            r@ == self@,
    {
        AudioDevice {
            id: self.id.clone(),
            name: self.name.clone(),
            is_default: self.is_default,
        }
    }
}

} // verus!
