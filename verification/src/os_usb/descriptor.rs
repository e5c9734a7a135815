//! The descriptor tree of a device as plain values: device, configuration,
//! interface, alternate setting, endpoint.

use vstd::prelude::*;

verus! {

/// One endpoint of an alternate setting.
#[derive(Clone, Copy, Debug, PartialEq, Eq, Structural)]
pub struct EndpointDescriptor {
    pub length: u8,
    pub descriptor_type: u8,
    /// Endpoint number in the low four bits, direction in the highest.
    pub endpoint_address: u8,
    /// Transfer type in the low two bits.
    pub attributes: u8,
}

/// The fixed-size record that describes a device.
#[derive(Clone, Copy, Debug, PartialEq, Eq, Structural)]
pub struct DeviceDescriptor {
    pub length: u8,
    pub descriptor_type: u8,
    pub bcd_usb: u16,
    pub device_class: u8,
    pub device_sub_class: u8,
    pub device_protocol: u8,
    pub max_packet_size0: u8,
    pub id_vendor: u16,
    pub id_product: u16,
    pub bcd_device: u16,
    pub manufacturer_index: u8,
    pub product_index: u8,
    pub serial_number_index: u8,
    pub num_configurations: u8,
}

/// One alternate setting of an interface, with its endpoints.
#[derive(Clone, Debug, PartialEq, Eq)]
pub struct InterfaceDescriptor {
    pub descriptor_type: u8,
    pub num_endpoints: u8,
    pub endpoints: Vec<EndpointDescriptor>,
}

/// An interface: its alternate settings.
#[derive(Clone, Debug, PartialEq, Eq)]
pub struct Interface {
    pub num_altsetting: i32,
    pub altsetting: Vec<InterfaceDescriptor>,
}

/// One configuration of a device, with its interfaces.
#[derive(Clone, Debug, PartialEq, Eq)]
pub struct ConfigDescriptor {
    pub length: u8,
    pub descriptor_type: u8,
    pub num_interfaces: u8,
    pub interfaces: Vec<Interface>,
}

/// An alternate setting as a mathematical value.
pub struct InterfaceDescriptorView {
    pub descriptor_type: u8,
    pub num_endpoints: u8,
    pub endpoints: Seq<EndpointDescriptor>,
}

/// An interface as a mathematical value.
pub struct InterfaceView {
    pub num_altsetting: i32,
    pub altsetting: Seq<InterfaceDescriptorView>,
}

/// A configuration as a mathematical value.
pub struct ConfigDescriptorView {
    pub length: u8,
    pub descriptor_type: u8,
    pub num_interfaces: u8,
    pub interfaces: Seq<InterfaceView>,
}

impl InterfaceDescriptorView {
    /// The endpoint count is the number of endpoints held.
    pub open spec fn wf(self) -> bool {
        self.endpoints.len() == self.num_endpoints
    }
}

impl InterfaceView {
    /// The number of alternate settings that are walked: none where the
    /// count is negative.
    pub open spec fn settings(self) -> nat {
        if self.num_altsetting > 0 {
            self.num_altsetting as nat
        } else {
            0
        }
    }

    /// The count tells how many alternate settings are held, and each of
    /// them is well formed.
    pub open spec fn wf(self) -> bool {
        &&& self.altsetting.len() == self.settings()
        &&& forall|i: int| 0 <= i < self.altsetting.len() ==> (#[trigger] self.altsetting[i]).wf()
    }
}

impl ConfigDescriptorView {
    /// The interface count is the number of interfaces held, and each of
    /// them is well formed.
    pub open spec fn wf(self) -> bool {
        &&& self.interfaces.len() == self.num_interfaces
        &&& forall|i: int| 0 <= i < self.interfaces.len() ==> (#[trigger] self.interfaces[i]).wf()
    }
}

impl View for InterfaceDescriptor {
    type V = InterfaceDescriptorView;

    open spec fn view(&self) -> InterfaceDescriptorView {
        InterfaceDescriptorView {
            descriptor_type: self.descriptor_type,
            num_endpoints: self.num_endpoints,
            endpoints: self.endpoints@,
        }
    }
}

impl DeepView for InterfaceDescriptor {
    type V = InterfaceDescriptorView;

    open spec fn deep_view(&self) -> InterfaceDescriptorView {
        self@
    }
}

impl View for Interface {
    type V = InterfaceView;

    open spec fn view(&self) -> InterfaceView {
        InterfaceView {
            num_altsetting: self.num_altsetting,
            altsetting: self.altsetting.deep_view(),
        }
    }
}

impl DeepView for Interface {
    type V = InterfaceView;

    open spec fn deep_view(&self) -> InterfaceView {
        self@
    }
}

impl View for ConfigDescriptor {
    type V = ConfigDescriptorView;

    open spec fn view(&self) -> ConfigDescriptorView {
        ConfigDescriptorView {
            length: self.length,
            descriptor_type: self.descriptor_type,
            num_interfaces: self.num_interfaces,
            interfaces: self.interfaces.deep_view(),
        }
    }
}

impl DeepView for ConfigDescriptor {
    type V = ConfigDescriptorView;

    open spec fn deep_view(&self) -> ConfigDescriptorView {
        self@
    }
}

impl InterfaceDescriptor {
    /// Tells whether the endpoint count is the number of endpoints held.
    pub fn is_well_formed(&self) -> (ok: bool)
        ensures
            ok == self@.wf(),
    {
        self.endpoints.len() == self.num_endpoints as usize
    }
}

impl Interface {
    /// Tells whether the count of alternate settings is the number held,
    /// and each of them is well formed.
    pub fn is_well_formed(&self) -> (ok: bool)
        ensures
            ok == self@.wf(),
    {
        let expected: usize = if self.num_altsetting > 0 {
            if self.num_altsetting as u64 > usize::MAX as u64 {
                return false;
            }
            self.num_altsetting as usize
        } else {
            0
        };
        if self.altsetting.len() != expected {
            return false;
        }
        let mut i: usize = 0;
        while i < self.altsetting.len()
            invariant
                i <= self.altsetting.len(),
                forall|j: int| 0 <= j < i ==> (#[trigger] self@.altsetting[j]).wf(),
            decreases self.altsetting.len() - i,
        {
            if !self.altsetting[i].is_well_formed() {
                assert(!self@.altsetting[i as int].wf());
                return false;
            }
            i = i + 1;
        }
        true
    }
}

impl ConfigDescriptor {
    /// Tells whether the interface count is the number of interfaces held,
    /// and each of them is well formed.
    pub fn is_well_formed(&self) -> (ok: bool)
        ensures
            ok == self@.wf(),
    {
        if self.interfaces.len() != self.num_interfaces as usize {
            return false;
        }
        let mut i: usize = 0;
        while i < self.interfaces.len()
            invariant
                i <= self.interfaces.len(),
                forall|j: int| 0 <= j < i ==> (#[trigger] self@.interfaces[j]).wf(),
            decreases self.interfaces.len() - i,
        {
            if !self.interfaces[i].is_well_formed() {
                assert(!self@.interfaces[i as int].wf());
                return false;
            }
            i = i + 1;
        }
        true
    }
}

} // verus!
