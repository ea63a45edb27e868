//! The record a resolved device contributes to the wizard: its interface
//! identifier, its human-readable volume label, and the mount path chosen
//! for it.

use vstd::prelude::*;

verus! {

/// Mathematical image of a `DeviceNameId`: the three fields as character
/// sequences.
pub struct DeviceView {
    pub id: Seq<char>,
    pub name: Seq<char>,
    pub path: Seq<char>,
}

/// A device known to the wizard: an opaque device-interface identifier,
/// the volume's label, and the mount path it was resolved to. Immutable
/// once constructed; the selection step only appends and compares them.
pub struct DeviceNameId {
    pub id: String,
    pub name: String,
    pub path: String,
}

impl View for DeviceNameId {
    type V = DeviceView;

    open spec fn view(&self) -> DeviceView {
        DeviceView { id: self.id@, name: self.name@, path: self.path@ }
    }
}

impl DeepView for DeviceNameId {
    type V = DeviceView;

    open spec fn deep_view(&self) -> DeviceView {
        self.view()
    }
}

impl DeviceView {
    /// A well-formed record never carries an empty mount path: a device with
    /// no assigned path yields no record at all.
    pub open spec fn wf(self) -> bool {
        self.path.len() > 0
    }
}

impl Clone for DeviceNameId {
    fn clone(&self) -> (r: Self)
        ensures
            r@ == self@,
    {
        DeviceNameId { id: self.id.clone(), name: self.name.clone(), path: self.path.clone() }
    }
}

} // verus!
