//! PCI configuration space through the legacy address/data port pair: the
//! address word of a register and the fields of the words read back.
//! The port accesses themselves are the caller's.
use vstd::prelude::*;

verus! {

/// A PCI function by its bus, device and function numbers.
#[derive(Clone, Copy, PartialEq, Eq, Debug, Structural)]
pub struct Device {
    pub bus: u8,
    pub device: u8,
    pub function: u8,
}

/// Vendor ID reported by an absent function.
pub const NO_VENDOR: u16 = 0xffff;

/// Device numbers on a bus.
pub const MAX_DEVICE: u8 = 32;

/// Function numbers of a device.
pub const MAX_FUNCTION: u8 = 8;

impl Device {
    pub fn new(bus: u8, device: u8, function: u8) -> (r: Device)
        ensures
            r.bus == bus && r.device == device && r.function == function,
    {
        Device { bus, device, function }
    }

    pub fn bus(&self) -> (r: u8)
        ensures
            r == self.bus,
    {
        self.bus
    }

    pub fn device(&self) -> (r: u8)
        ensures
            r == self.device,
    {
        self.device
    }

    pub fn function(&self) -> (r: u8)
        ensures
            r == self.function,
    {
        self.function
    }

    /// Bit 7 of the header type is clear on a single-function device.
    pub fn is_single_function(header_type: u8) -> (r: bool)
        ensures
            r == (header_type < 0x80),
    {
        let masked = header_type & 0x80;
        assert(masked == 0 <==> header_type < 0x80) by (bit_vector)
            requires
                masked == header_type & 0x80,
        ;
        masked == 0
    }

    /// Base class 0x06 (bridge), sub class 0x04 (PCI-to-PCI).
    pub fn is_pci_pci_bridge(base_class: u8, sub_class: u8) -> (r: bool)
        ensures
            r == (base_class == 0x06 && sub_class == 0x04),
    {
        base_class == 0x06 && sub_class == 0x04
    }

    /// Secondary bus number of a bridge: byte 1 of the register at 0x18.
    pub fn secondary_bus(base_address_register_2: u32) -> (r: u8)
        ensures
            r == (base_address_register_2 / 0x100) % 0x100,
    {
        let v = (base_address_register_2 >> 8) & 0xff;
        assert(v == (base_address_register_2 / 0x100) % 0x100) by (bit_vector)
            requires
                v == (base_address_register_2 >> 8) & 0xff,
        ;
        v as u8
    }
}

/// Offsets of the configuration registers that the bus scan reads.
pub const REGISTER_VENDOR: u8 = 0x00;

pub const REGISTER_CLASS: u8 = 0x08;

pub const REGISTER_HEADER: u8 = 0x0c;

pub const REGISTER_BUS_NUMBERS: u8 = 0x18;

pub struct Configuration {}

impl Configuration {
    /// The word to write to the address port to select `register_offset` of
    /// `device`: enable bit, bus, device, function and the register's
    /// dword-aligned offset.
    pub fn address(device: &Device, register_offset: u8) -> (r: u32)
        ensures
            r == 0x8000_0000u32 | ((device.bus as u32) << 16u32) | ((device.device as u32)
                << 11u32) | ((device.function as u32) << 8u32) | ((register_offset as u32)
                & 0xfcu32),
            device.device < MAX_DEVICE && device.function < MAX_FUNCTION ==> r == 0x8000_0000
                + device.bus * 0x1_0000 + device.device * 0x800 + device.function * 0x100 + (
            register_offset / 4) * 4,
    {
        let bus = device.bus as u32;
        let dev = device.device as u32;
        let function = device.function as u32;
        let off = register_offset as u32;
        let r = 0x8000_0000u32 | (bus << 16u32) | (dev << 11u32) | (function << 8u32) | (off
            & 0xfcu32);
        assert(dev < 32 && function < 8 && bus < 256 && off < 256 ==> r == 0x8000_0000 + bus
            * 0x1_0000 + dev * 0x800 + function * 0x100 + (off / 4) * 4) by (bit_vector)
            requires
                r == 0x8000_0000u32 | (bus << 16u32) | (dev << 11u32) | (function << 8u32) | (
                off & 0xfcu32),
        ;
        r
    }

    /// Vendor ID: bits 0..16 of the register at 0x00.
    pub fn vender_id(register: u32) -> (r: u16)
        ensures
            r == register % 0x1_0000,
    {
        let v = register & 0xffff;
        assert(v == register % 0x1_0000) by (bit_vector)
            requires
                v == register & 0xffff,
        ;
        v as u16
    }

    /// Header type: bits 16..24 of the register at 0x0c.
    pub fn header_type(register: u32) -> (r: u8)
        ensures
            r == (register / 0x1_0000) % 0x100,
    {
        let v = (register >> 16) & 0xff;
        assert(v == (register / 0x1_0000) % 0x100) by (bit_vector)
            requires
                v == (register >> 16) & 0xff,
        ;
        v as u8
    }

    /// Base class: bits 24..32 of the register at 0x08.
    pub fn base_class(register: u32) -> (r: u8)
        ensures
            r == register / 0x100_0000,
    {
        let v = (register >> 24) & 0xff;
        assert(v == register / 0x100_0000) by (bit_vector)
            requires
                v == (register >> 24) & 0xff,
        ;
        v as u8
    }

    /// Sub class: bits 16..24 of the register at 0x08.
    pub fn sub_class(register: u32) -> (r: u8)
        ensures
            r == (register / 0x1_0000) % 0x100,
    {
        let v = (register >> 16) & 0xff;
        assert(v == (register / 0x1_0000) % 0x100) by (bit_vector)
            requires
                v == (register >> 16) & 0xff,
        ;
        v as u8
    }
}

/// Devices that a scan records; later ones are not kept.
pub const CAPACITY: usize = 256;

/// Buses that a scan visits at most.
pub const MAX_BUS: usize = 256;

/// The four registers of one function, as read from configuration space.
#[derive(Clone, Copy, PartialEq, Eq, Debug, Structural)]
pub struct Probe {
    /// Register 0x00: vendor and device ID.
    pub vendor: u32,
    /// Register 0x08: revision, interface, sub class and base class.
    pub class: u32,
    /// Register 0x0c: cache line size, latency, header type and BIST.
    pub header: u32,
    /// Register 0x18: primary, secondary and subordinate bus numbers.
    pub bus_numbers: u32,
}

pub open spec fn probe_present(p: Probe) -> bool {
    p.vendor % 0x1_0000 != NO_VENDOR
}

pub open spec fn probe_is_bridge(p: Probe) -> bool {
    p.class / 0x100_0000 == 0x06 && (p.class / 0x1_0000) % 0x100 == 0x04
}

pub open spec fn probe_single_function(p: Probe) -> bool {
    (p.header / 0x1_0000) % 0x100 < 0x80
}

/// Depth-first enumeration of the buses reachable from bus 0: every device
/// of a bus in the plan is probed at function 0, and at functions 1 to 7
/// when function 0 is present and multi-function; every PCI-to-PCI bridge
/// found adds its secondary bus to the plan.
pub struct PciScan {
    devices: Vec<Device>,
    bus_scan_plan: Vec<u8>,
    bus_index: usize,
    device: u8,
    function: u8,
}

/// Abstract state of a scan.
pub struct ScanModel {
    pub devices: Seq<Device>,
    pub bus_scan_plan: Seq<u8>,
    pub bus_index: int,
    pub device: int,
    pub function: int,
}

impl View for PciScan {
    type V = ScanModel;

    closed spec fn view(&self) -> ScanModel {
        ScanModel {
            devices: self.devices@,
            bus_scan_plan: self.bus_scan_plan@,
            bus_index: self.bus_index as int,
            device: self.device as int,
            function: self.function as int,
        }
    }
}

pub open spec fn scan_wf(m: ScanModel) -> bool {
    &&& m.devices.len() <= CAPACITY
    &&& 1 <= m.bus_scan_plan.len() <= MAX_BUS
    &&& 0 <= m.bus_index <= m.bus_scan_plan.len()
    &&& 0 <= m.device < MAX_DEVICE
    &&& 0 <= m.function < MAX_FUNCTION
}

pub open spec fn scan_done(m: ScanModel) -> bool {
    m.bus_index >= m.bus_scan_plan.len()
}

/// The function to probe next, if the scan is not over.
pub open spec fn next_probe_of(m: ScanModel) -> Option<Device> {
    if scan_done(m) {
        None
    } else {
        Some(
            Device {
                bus: m.bus_scan_plan[m.bus_index],
                device: m.device as u8,
                function: m.function as u8,
            },
        )
    }
}

/// The position after the current one: the next function of the device,
/// or function 0 of the next device, or device 0 of the next planned bus.
pub open spec fn advance(m: ScanModel, next_function: bool) -> ScanModel {
    if next_function && m.function + 1 < MAX_FUNCTION {
        ScanModel { function: m.function + 1, ..m }
    } else if m.device + 1 < MAX_DEVICE {
        ScanModel { device: m.device + 1, function: 0, ..m }
    } else {
        ScanModel { bus_index: m.bus_index + 1, device: 0, function: 0, ..m }
    }
}

/// The scan after the probe of the current function read `p`.
pub open spec fn record_of(m: ScanModel, p: Probe) -> ScanModel {
    if scan_done(m) {
        m
    } else {
        let present = probe_present(p);
        let cur = next_probe_of(m)->Some_0;
        let devices = if present && m.devices.len() < CAPACITY {
            m.devices.push(cur)
        } else {
            m.devices
        };
        let plan = if present && probe_is_bridge(p) && m.bus_scan_plan.len() < MAX_BUS {
            m.bus_scan_plan.push(((p.bus_numbers / 0x100) % 0x100) as u8)
        } else {
            m.bus_scan_plan
        };
        let next_function = m.function != 0 || (present && !probe_single_function(p));
        advance(ScanModel { devices, bus_scan_plan: plan, ..m }, next_function)
    }
}

/// Probes left at most: a bound that every recorded probe lowers.
pub open spec fn scan_measure(m: ScanModel) -> int {
    (MAX_BUS - m.bus_index) * (MAX_DEVICE * MAX_FUNCTION) + (MAX_DEVICE - m.device)
        * MAX_FUNCTION + (MAX_FUNCTION - m.function)
}

impl PciScan {
    /// A scan that starts at device 0, function 0 of bus 0.
    pub fn new() -> (r: PciScan)
        ensures
            scan_wf(r@),
            r@.devices == Seq::<Device>::empty(),
            r@.bus_scan_plan == seq![0u8],
            r@.bus_index == 0 && r@.device == 0 && r@.function == 0,
    {
        let mut bus_scan_plan: Vec<u8> = Vec::new();
        bus_scan_plan.push(0);
        PciScan { devices: Vec::new(), bus_scan_plan, bus_index: 0, device: 0, function: 0 }
    }


    /// The function whose four registers are to be read next; `None` once
    /// every planned bus has been scanned.
    pub fn next_probe(&self) -> (r: Option<Device>)
        requires
            scan_wf(self@),
        ensures
            r == next_probe_of(self@),
    {
        if self.bus_index >= self.bus_scan_plan.len() {
            None
        } else {
            Some(Device::new(self.bus_scan_plan[self.bus_index], self.device, self.function))
        }
    }

    /// Records what the probe of the current function read and moves on.
    pub fn record(&mut self, probe: Probe)
        requires
            scan_wf(old(self)@),
        ensures
            scan_wf(final(self)@),
            final(self)@ == record_of(old(self)@, probe),
            !scan_done(old(self)@) ==> scan_measure(final(self)@) < scan_measure(old(self)@),
    {
        if self.bus_index >= self.bus_scan_plan.len() {
            return;
        }
        let current = Device::new(self.bus_scan_plan[self.bus_index], self.device, self.function);
        let present = Configuration::vender_id(probe.vendor) != NO_VENDOR;
        if present && self.devices.len() < CAPACITY {
            self.devices.push(current);
        }
        if present && Device::is_pci_pci_bridge(
            Configuration::base_class(probe.class),
            Configuration::sub_class(probe.class),
        ) && self.bus_scan_plan.len() < MAX_BUS {
            self.bus_scan_plan.push(Device::secondary_bus(probe.bus_numbers));
        }
        let next_function = self.function != 0 || (present && !Device::is_single_function(
            Configuration::header_type(probe.header),
        ));
        if next_function && self.function + 1 < MAX_FUNCTION {
            self.function = self.function + 1;
        } else if self.device + 1 < MAX_DEVICE {
            self.device = self.device + 1;
            self.function = 0;
        } else {
            self.bus_index = self.bus_index + 1;
            self.device = 0;
            self.function = 0;
        }
        proof {
            assert(self@.devices =~= record_of(old(self)@, probe).devices);
            assert(self@.bus_scan_plan =~= record_of(old(self)@, probe).bus_scan_plan);
        }
    }
}

/// The functions that a bus scan found, in the order found.
pub struct Pci {
    devices: Vec<Device>,
}

impl View for Pci {
    type V = Seq<Device>;

    closed spec fn view(&self) -> Seq<Device> {
        self.devices@
    }
}

impl Pci {
    /// The table of the devices that `scan` found.
    pub fn new(scan: PciScan) -> (r: Pci)
        ensures
            r@ == scan@.devices,
    {
        Pci { devices: scan.devices }
    }

    pub fn size(&self) -> (r: usize)
        ensures
            r == self@.len(),
    {
        self.devices.len()
    }

    pub fn get(&self, index: usize) -> (r: Option<Device>)
        ensures
            index < self@.len() ==> r == Some(self@[index as int]),
            index >= self@.len() ==> r is None,
    {
        if index < self.devices.len() {
            Some(self.devices[index])
        } else {
            None
        }
    }

    pub fn iter(&self) -> (r: PciIterator)
        ensures
            r.pci@ == self@,
            r.count == 0,
    {
        PciIterator::new(Pci { devices: self.devices.clone() })
    }
}

/// A cursor over the devices of a table, first to last.
pub struct PciIterator {
    pub pci: Pci,
    pub count: usize,
}

impl PciIterator {
    pub fn new(pci: Pci) -> (r: PciIterator)
        ensures
            r.pci@ == pci@,
            r.count == 0,
    {
        PciIterator { pci, count: 0 }
    }

    /// The device at the cursor, moving past it; `None` at the end.
    pub fn next(&mut self) -> (r: Option<Device>)
        ensures
            final(self).pci@ == old(self).pci@,
            old(self).count < old(self).pci@.len() ==> r == Some(old(self).pci@[old(self).count as int])
                && final(self).count == old(self).count + 1,
            old(self).count >= old(self).pci@.len() ==> r is None && final(self).count
                == old(self).count,
    {
        if self.count < self.pci.size() {
            let device = self.pci.get(self.count);
            self.count = self.count + 1;
            device
        } else {
            None
        }
    }
}

} // verus!
