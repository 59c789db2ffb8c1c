//! Best-effort name lookups in the compiled-in PCI ID database. The database
//! is a fixed table, so every lookup is a function of the numeric IDs alone;
//! unknown IDs come back as `None` and callers render a numeric placeholder.

use vstd::prelude::*;

use pci_ids::FromId;

verus! {

/// The name the PCI ID database gives a vendor, if it lists the vendor at all.
pub uninterp spec fn spec_vendor_name(id: u16) -> Option<Seq<char>>;

/// Relies on pci_ids::Vendor::from_id and Vendor::name: the database is a
/// compiled-in table, so the result depends on the vendor ID alone.
#[verifier::external_body]
pub(crate) fn vendor_name_lookup(id: u16) -> (r: Option<String>)
    ensures
        match r {
            Some(s) => spec_vendor_name(id) == Some(s@),
            None => spec_vendor_name(id) is None,
        },
{
    pci_ids::Vendor::from_id(id).map(|v| v.name().to_string())
}

/// The name the PCI ID database gives a device of a vendor, if it lists it.
pub uninterp spec fn spec_device_name(vid: u16, did: u16) -> Option<Seq<char>>;

/// Relies on pci_ids::Device::from_vid_pid and Device::name: the database is a
/// compiled-in table, so the result depends on the two IDs alone.
#[verifier::external_body]
pub(crate) fn device_name_lookup(vid: u16, did: u16) -> (r: Option<String>)
    ensures
        match r {
            Some(s) => spec_device_name(vid, did) == Some(s@),
            None => spec_device_name(vid, did) is None,
        },
{
    pci_ids::Device::from_vid_pid(vid, did).map(|d| d.name().to_string())
}

/// The name the PCI ID database gives a subclass of a base class, if any.
pub uninterp spec fn spec_subclass_name(cid: u8, sid: u8) -> Option<Seq<char>>;

/// Relies on pci_ids::Subclass::from_cid_sid and Subclass::name: the database
/// is a compiled-in table, so the result depends on the two IDs alone.
#[verifier::external_body]
pub(crate) fn subclass_name_lookup(cid: u8, sid: u8) -> (r: Option<String>)
    ensures
        match r {
            Some(s) => spec_subclass_name(cid, sid) == Some(s@),
            None => spec_subclass_name(cid, sid) is None,
        },
{
    pci_ids::Subclass::from_cid_sid(cid, sid).map(|s| s.name().to_string())
}

/// The subsystem list the PCI ID database gives a device: each entry's
/// subdevice ID and name, in the database's order. A device the database does
/// not list has an empty list.
pub uninterp spec fn spec_device_subsystems(vid: u16, did: u16) -> Seq<(u16, Seq<char>)>;

/// Relies on pci_ids::Device::from_vid_pid, Device::subsystems and
/// SubSystem::subdevice/name: the database is a compiled-in table whose
/// subsystem lists have a fixed order, so the result depends on the IDs alone.
#[verifier::external_body]
pub(crate) fn device_subsystems(vid: u16, did: u16) -> (r: Vec<(u16, String)>)
    ensures
        r@.len() == spec_device_subsystems(vid, did).len(),
        forall|i: int|
            0 <= i < r@.len() ==> (#[trigger] r@[i]).0 == spec_device_subsystems(vid, did)[i].0
                && r@[i].1@ == spec_device_subsystems(vid, did)[i].1,
{
    match pci_ids::Device::from_vid_pid(vid, did) {
        Some(d) => d.subsystems().map(|s| (s.subdevice(), s.name().to_string())).collect(),
        None => Vec::new(),
    }
}

} // verus!
