//! The PCI host bridge and the config-address/config-data port protocol.
//!
//! One device is populated, the host bridge at bus:device.function
//! 0:0.0; reads of any other address return all ones.

use vstd::prelude::*;

verus! {

/// The value of the config-address port (`0xcf8`): bit 31 enables config
/// cycles, bits 8-23 select bus:device.function, bits 0-7 the register
/// offset.
pub struct ConfigAddr(pub u32);

impl ConfigAddr {
    /// Whether configuration cycles are enabled.
    pub fn enabled(&self) -> (r: bool)
        ensures
            r == (self.0 & 0x80000000 != 0),
    {
        (self.0 & 0x80000000) != 0
    }

    /// The register offset within the selected function.
    pub fn offset(&self) -> (r: u8)
        ensures
            r == self.spec_offset(),
    {
        (self.0 & 0xff) as u8
    }

    pub open spec fn spec_offset(&self) -> u8 {
        (self.0 & 0xff) as u8
    }

    /// The selected bus:device.function.
    pub fn bdf(&self) -> (r: u16)
        ensures
            r == self.spec_bdf(),
    {
        let v = self.0;
        proof {
            assert((v >> 8) & 0xffff <= 0xffff) by (bit_vector);
        }
        ((v >> 8) & 0xffff) as u16
    }

    pub open spec fn spec_bdf(&self) -> u16 {
        ((self.0 >> 8) & 0xffff) as u16
    }
}

/// A device on the PCI bus: 64 configuration dwords addressed by byte
/// offset.
pub trait PciDevice {
    /// The device's configuration dwords.
    spec fn cfg(&self) -> Seq<u32>;

    /// Reads the dword holding byte `offset`.
    fn read(&self, offset: u8) -> (r: u32)
        requires
            self.cfg().len() == 16,
            offset < 64,
        ensures
            r == self.cfg()[offset as int / 4],
    ;

    /// Writes the dword holding byte `offset`.
    fn write(&mut self, offset: u8, value: u32)
        requires
            old(self).cfg().len() == 16,
            offset < 64,
        ensures
            final(self).cfg() == old(self).cfg().update(offset as int / 4, value),
    ;
}

/// The fixed host bridge at 0:0.0: vendor/device 8086:7190, status and
/// command `0x02000006`, class `0x06000001`.
pub struct HostBridge {
    pub data: Vec<u32>,
}

impl HostBridge {
    pub fn new() -> (r: HostBridge)
        ensures
            r.cfg().len() == 16,
            r.cfg()[0] == 0x71908086,
            r.cfg()[1] == 0x02000006,
            r.cfg()[2] == 0x06000001,
            forall|i: int| 3 <= i < 16 ==> r.cfg()[i] == 0,
    {
        let mut data: Vec<u32> = Vec::new();
        data.push(0x71908086);
        data.push(0x02000006);
        data.push(0x06000001);
        let mut i: usize = 3;
        while i < 16
            invariant
                3 <= i <= 16,
                data@.len() == i,
                data@[0] == 0x71908086,
                data@[1] == 0x02000006,
                data@[2] == 0x06000001,
                forall|j: int| 3 <= j < i ==> data@[j] == 0,
            decreases 16 - i,
        {
            data.push(0);
            i = i + 1;
        }
        HostBridge { data }
    }
}

impl PciDevice for HostBridge {
    open spec fn cfg(&self) -> Seq<u32> {
        self.data@
    }

    fn read(&self, offset: u8) -> (r: u32) {
        proof {
            assert(offset < 64 ==> (offset >> 2) < 16 && (offset >> 2) == offset / 4)
                by (bit_vector);
        }
        self.data[(offset >> 2) as usize]
    }

    fn write(&mut self, offset: u8, value: u32) {
        proof {
            assert(offset < 64 ==> (offset >> 2) < 16 && (offset >> 2) == offset / 4)
                by (bit_vector);
        }
        let i = (offset >> 2) as usize;
        self.data.set(i, value);
    }
}

/// The PCI bus: the config-address latch and the single host bridge.
pub struct PciBus {
    pub config_addr: ConfigAddr,
    pub host_bridge: HostBridge,
}

impl PciBus {
    pub fn new() -> (r: PciBus)
        ensures
            r.wf(),
            r.config_addr.0 == 0,
            r.host_bridge.cfg()[0] == 0x71908086,
            r.host_bridge.cfg()[1] == 0x02000006,
            r.host_bridge.cfg()[2] == 0x06000001,
    {
        PciBus { config_addr: ConfigAddr(0), host_bridge: HostBridge::new() }
    }

    pub open spec fn wf(&self) -> bool {
        self.host_bridge.cfg().len() == 16
    }

    /// Reads the config-data port: the addressed dword of the selected
    /// device, or all ones when no device answers the selected
    /// bus:device.function or the offset lies beyond the implemented
    /// configuration space.
    pub fn read(&self) -> (r: u32)
        requires
            self.wf(),
        ensures
            self.config_addr.spec_bdf() == 0 && self.config_addr.spec_offset() < 64 ==> r
                == self.host_bridge.cfg()[self.config_addr.spec_offset() as int / 4],
            !(self.config_addr.spec_bdf() == 0 && self.config_addr.spec_offset() < 64) ==> r
                == u32::MAX,
    {
        let bdf = self.config_addr.bdf();
        let off = self.config_addr.offset();
        if bdf == 0 && off < 64 {
            self.host_bridge.read(off)
        } else {
            u32::MAX
        }
    }

    /// Writes the config-data port to the addressed dword of the
    /// selected device; writes to absent devices or beyond the
    /// implemented configuration space are dropped.
    pub fn write(&mut self, value: u32)
        requires
            old(self).wf(),
        ensures
            final(self).wf(),
            final(self).config_addr == old(self).config_addr,
            old(self).config_addr.spec_bdf() == 0 && old(self).config_addr.spec_offset() < 64
                ==> final(self).host_bridge.cfg() == old(self).host_bridge.cfg().update(
                old(self).config_addr.spec_offset() as int / 4,
                value,
            ),
            !(old(self).config_addr.spec_bdf() == 0 && old(self).config_addr.spec_offset() < 64)
                ==> *final(self) == *old(self),
    {
        let bdf = self.config_addr.bdf();
        let off = self.config_addr.offset();
        if bdf == 0 && off < 64 {
            self.host_bridge.write(off, value);
        }
    }
}

} // verus!
