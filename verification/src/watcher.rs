//! One cycle of the device watcher. The driver enumerates the ports, rests, and
//! enumerates again; here it is decided what each enumeration means for the inventory
//! that was published.

use vstd::prelude::*;

use crate::catalog::{listing, massage_devices_list, PortInfo};
use crate::command::{descriptors, find_available_ports, SerialPort};
use crate::model::PortDescriptor;

verus! {

/// What an enumeration found, if it succeeded.
pub open spec fn enumerated_view(enumerated: Result<Vec<PortInfo>, String>) -> Option<
    Seq<PortDescriptor>,
> {
    match enumerated {
        Ok(devices) => Some(listing(devices@)),
        Err(_) => None,
    }
}

/// What an update to send stands for.
pub open spec fn update_view(update: Option<Vec<SerialPort>>) -> Option<Seq<PortDescriptor>> {
    match update {
        Some(ports) => Some(descriptors(ports@)),
        None => None,
    }
}

/// The inventory to publish after an enumeration, if any: what was found, where it
/// differs from what is known in the name or the description of any port, in their
/// number or in their order. A failed enumeration publishes nothing.
pub open spec fn fresh_inventory(
    known: Seq<PortDescriptor>,
    found: Option<Seq<PortDescriptor>>,
) -> Option<Seq<PortDescriptor>> {
    match found {
        Some(ports) => if ports == known {
            None
        } else {
            Some(ports)
        },
        None => None,
    }
}

/// Whether two inventories hold the same descriptors in the same order.
pub fn same_inventory(left: &Vec<SerialPort>, right: &Vec<SerialPort>) -> (same: bool)
    ensures
        same == (descriptors(left@) == descriptors(right@)),
{
    if left.len() != right.len() {
        return false;
    }
    let mut i: usize = 0;
    while i < left.len()
        invariant
            i <= left.len(),
            left.len() == right.len(),
            forall|j: int| 0 <= j < i ==> (#[trigger] left@[j])@ == right@[j]@,
        decreases left.len() - i,
    {
        if !left[i].same_as(&right[i]) {
            assert(descriptors(left@)[i as int] != descriptors(right@)[i as int]);
            return false;
        }
        i += 1;
    }
    assert(descriptors(left@) =~= descriptors(right@));
    true
}

/// Takes in one enumeration. Where it found something other than the inventory known,
/// the inventory is replaced as a whole and returned, to be sent to the subscribers
/// of `DEVICE_LIST_UPDATED`. Where it found the same, or failed, the inventory stays as
/// it is and there is nothing to send.
pub fn watch_devices(known: &mut Vec<SerialPort>, enumerated: Result<Vec<PortInfo>, String>) -> (update:
    Option<Vec<SerialPort>>)
    ensures
        update_view(update) == fresh_inventory(
            descriptors(old(known)@),
            enumerated_view(enumerated),
        ),
        update matches Some(sent) ==> descriptors(final(known)@) == descriptors(sent@),
        update is None ==> *final(known) == *old(known),
{
    match enumerated {
        Ok(devices) => {
            let found = massage_devices_list(devices);
            if same_inventory(&found, known) {
                None
            } else {
                let sent = find_available_ports(&found);
                *known = found;
                Some(sent)
            }
        },
        Err(_) => None,
    }
}

} // verus!
