//! The ports of the machine, as the driver enumerates them and as the host sees them.

use vstd::prelude::*;

use crate::command::{descriptors, SerialPort};
use crate::model::PortDescriptor;

verus! {

/// The kind of a port, with what is known of the device behind it.
#[derive(Debug, Clone, PartialEq, Eq)]
pub enum PortType {
    /// A USB device, with its product string if it has one.
    UsbPort { product: Option<String> },
    /// Any other port.
    Other,
}

/// One port as the driver found it.
#[derive(Debug, Clone, PartialEq, Eq)]
pub struct PortInfo {
    pub port_name: String,
    pub port_type: PortType,
}

/// What a `PortType` stands for.
pub enum PortTypeView {
    UsbPort { product: Option<Seq<char>> },
    Other,
}

/// What a `PortInfo` stands for.
pub struct PortInfoView {
    pub port_name: Seq<char>,
    pub port_type: PortTypeView,
}

impl View for PortType {
    type V = PortTypeView;

    open spec fn view(&self) -> PortTypeView {
        match self {
            PortType::UsbPort { product } => PortTypeView::UsbPort {
                product: match product {
                    Some(name) => Some(name@),
                    None => None,
                },
            },
            PortType::Other => PortTypeView::Other,
        }
    }
}

impl View for PortInfo {
    type V = PortInfoView;

    open spec fn view(&self) -> PortInfoView {
        PortInfoView { port_name: self.port_name@, port_type: self.port_type@ }
    }
}

/// The descriptor of a port: its name, and the product string of a USB device that has
/// one. For any other port the description is empty.
pub open spec fn describe(info: PortInfoView) -> PortDescriptor {
    PortDescriptor {
        port_name: info.port_name,
        port_info: match info.port_type {
            PortTypeView::UsbPort { product: Some(name) } => name,
            _ => Seq::empty(),
        },
    }
}

/// The descriptors of the ports found, in the order in which they were found.
pub open spec fn listing(devices: Seq<PortInfo>) -> Seq<PortDescriptor> {
    devices.map_values(|info: PortInfo| describe(info@))
}

impl PortInfo {
    /// The descriptor of this port.
    pub fn descriptor(&self) -> (port: SerialPort)
        ensures
            port@ == describe(self@),
    {
        let port_info = match &self.port_type {
            PortType::UsbPort { product: Some(name) } => name.clone(),
            _ => String::new(),
        };
        SerialPort { port_name: self.port_name.clone(), port_info }
    }
}

/// Describes each port found, in order.
pub fn massage_devices_list(devices: Vec<PortInfo>) -> (ports: Vec<SerialPort>)
    ensures
        descriptors(ports@) == listing(devices@),
{
    let mut ports: Vec<SerialPort> = Vec::new();
    let mut i: usize = 0;
    while i < devices.len()
        invariant
            i <= devices.len(),
            ports@.len() == i,
            forall|j: int| 0 <= j < i ==> (#[trigger] ports@[j])@ == describe(devices@[j]@),
        decreases devices.len() - i,
    {
        ports.push(devices[i].descriptor());
        i += 1;
    }
    ports
}

} // verus!
