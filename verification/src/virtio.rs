//! The virtio-mmio transport and the entropy device that serves its
//! virtqueue: register reads and writes with the virtio 1.0 status
//! ordering, and the worker step that turns an available descriptor
//! chain into a used-ring entry.

use vstd::prelude::*;

use crate::err::Error;
use crate::mach::MachVMBlock;
use crate::utils::random_u64;
use crate::virtq::chain_buffers_in;
use crate::virtq::chain_bytes;
use crate::virtq::lemma_chain_from_shape;
use crate::virtq::spec_avail_at;
use crate::virtq::spec_chain_from;
use crate::virtq::spec_used_at;
use crate::virtq::AddressConverter;
use crate::virtq::Virtq;
use crate::virtq::VirtqHva;
use crate::virtq::VirtqUsedElem;
use crate::virtq::VIRTQ_AVAIL_F_NO_INTERRUPT;
use crate::virtq::VIRTQ_USED_ELEM_SIZE;

verus! {

pub const VIRTIO_CONFIG_S_ACKNOWLEDGE: u8 = 1;

pub const VIRTIO_CONFIG_S_DRIVER: u8 = 2;

pub const VIRTIO_CONFIG_S_DRIVER_OK: u8 = 4;

pub const VIRTIO_CONFIG_S_FEATURES_OK: u8 = 8;

pub const VIRTIO_CONFIG_S_NEEDS_RESET: u8 = 0x40;

pub const VIRTIO_CONFIG_S_FAILED: u8 = 0x80;

/// Feature bit: the device is virtio 1.0 compliant.
pub const VIRTIO_F_VERSION_1: u8 = 32;

/// Interrupt-status bit: a used ring advanced.
pub const VIRTIO_INT_VRING: u32 = 1;

/// Interrupt-status bit: the configuration changed.
pub const VIRTIO_INT_CONFIG: u32 = 2;

// virtio-mmio register offsets (version 2 layout).
pub const VIRTIO_MMIO_MAGIC_VALUE: usize = 0x000;

pub const VIRTIO_MMIO_VERSION: usize = 0x004;

pub const VIRTIO_MMIO_DEVICE_ID: usize = 0x008;

pub const VIRTIO_MMIO_VENDOR_ID: usize = 0x00c;

pub const VIRTIO_MMIO_DEVICE_FEATURES: usize = 0x010;

pub const VIRTIO_MMIO_DEVICE_FEATURES_SEL: usize = 0x014;

pub const VIRTIO_MMIO_DRIVER_FEATURES: usize = 0x020;

pub const VIRTIO_MMIO_DRIVER_FEATURES_SEL: usize = 0x024;

pub const VIRTIO_MMIO_QUEUE_SEL: usize = 0x030;

pub const VIRTIO_MMIO_QUEUE_NUM_MAX: usize = 0x034;

pub const VIRTIO_MMIO_QUEUE_NUM: usize = 0x038;

pub const VIRTIO_MMIO_QUEUE_READY: usize = 0x044;

pub const VIRTIO_MMIO_QUEUE_NOTIFY: usize = 0x050;

pub const VIRTIO_MMIO_INTERRUPT_STATUS: usize = 0x060;

pub const VIRTIO_MMIO_INTERRUPT_ACK: usize = 0x064;

pub const VIRTIO_MMIO_STATUS: usize = 0x070;

pub const VIRTIO_MMIO_QUEUE_DESC_LOW: usize = 0x080;

pub const VIRTIO_MMIO_QUEUE_DESC_HIGH: usize = 0x084;

pub const VIRTIO_MMIO_QUEUE_AVAIL_LOW: usize = 0x090;

pub const VIRTIO_MMIO_QUEUE_AVAIL_HIGH: usize = 0x094;

pub const VIRTIO_MMIO_QUEUE_USED_LOW: usize = 0x0a0;

pub const VIRTIO_MMIO_QUEUE_USED_HIGH: usize = 0x0a4;

pub const VIRTIO_MMIO_CONFIG_GENERATION: usize = 0x0fc;

pub const VIRTIO_MMIO_CONFIG: usize = 0x100;

/// "virt".
pub const VIRT_MAGIC: u32 = 0x74726976;

pub const VIRT_MMIO_VERSION: u32 = 2;

/// "AKAR".
pub const VIRT_MMIO_VENDOR: u32 = 0x52414b41;

/// Device classes of the virtio specification.
#[derive(Debug, Clone, Copy, PartialEq, Eq, Structural)]
pub enum VirtioId {
    Reserved,
    Net,
    Block,
    Console,
    Entropy,
    BalloonTraditional,
    IoMemory,
    RpMsg,
    ScsiHost,
    Transport9P,
    Mac80211Wlan,
    RProcSerial,
    Caif,
    Balloon,
    GPU,
    Timer,
    Input,
}

impl VirtioId {
    /// The numeric device id the transport reports.
    pub fn code(&self) -> (r: u32)
        ensures
            r == self.spec_code(),
    {
        match self {
            VirtioId::Reserved => 0,
            VirtioId::Net => 1,
            VirtioId::Block => 2,
            VirtioId::Console => 3,
            VirtioId::Entropy => 4,
            VirtioId::BalloonTraditional => 5,
            VirtioId::IoMemory => 6,
            VirtioId::RpMsg => 7,
            VirtioId::ScsiHost => 8,
            VirtioId::Transport9P => 9,
            VirtioId::Mac80211Wlan => 10,
            VirtioId::RProcSerial => 11,
            VirtioId::Caif => 12,
            VirtioId::Balloon => 13,
            VirtioId::GPU => 16,
            VirtioId::Timer => 17,
            VirtioId::Input => 18,
        }
    }

    pub open spec fn spec_code(&self) -> u32 {
        match self {
            VirtioId::Reserved => 0,
            VirtioId::Net => 1,
            VirtioId::Block => 2,
            VirtioId::Console => 3,
            VirtioId::Entropy => 4,
            VirtioId::BalloonTraditional => 5,
            VirtioId::IoMemory => 6,
            VirtioId::RpMsg => 7,
            VirtioId::ScsiHost => 8,
            VirtioId::Transport9P => 9,
            VirtioId::Mac80211Wlan => 10,
            VirtioId::RProcSerial => 11,
            VirtioId::Caif => 12,
            VirtioId::Balloon => 13,
            VirtioId::GPU => 16,
            VirtioId::Timer => 17,
            VirtioId::Input => 18,
        }
    }
}

/// A device-specific configuration block.
pub trait VirtioDevCfg {
    /// The generation counter the transport reports.
    spec fn spec_generation(&self) -> u32;

    /// Resets the block to power-up state.
    fn reset(&mut self)
        ensures
            final(self).spec_generation() == old(self).spec_generation() + 1 || final(self).spec_generation() == 0,
    ;

    fn generation(&self) -> (r: u32)
        ensures
            r == self.spec_generation(),
    ;

    /// Reads `size` bytes of config at `offset`; `None` when the access
    /// does not decode.
    fn read(&self, offset: usize, size: u8) -> (r: Option<u32>);

    /// Writes config; `None` when the access does not decode.
    fn write(&mut self, offset: usize, size: u8, value: u32) -> (r: Option<()>);
}

/// The entropy device's configuration block: it has no registers.
pub struct VirtioRngCfg {
    pub gen: u32,
}

impl VirtioDevCfg for VirtioRngCfg {
    open spec fn spec_generation(&self) -> u32 {
        self.gen
    }

    fn reset(&mut self)
        ensures
            final(self).gen == (if old(self).gen == u32::MAX {
                0
            } else {
                old(self).gen + 1
            }),
    {
        if self.gen == u32::MAX {
            self.gen = 0;
        } else {
            self.gen = self.gen + 1;
        }
    }

    fn generation(&self) -> (r: u32) {
        self.gen
    }

    fn read(&self, offset: usize, size: u8) -> (r: Option<u32>) {
        None
    }

    fn write(&mut self, offset: usize, size: u8, value: u32) -> (r: Option<()>) {
        None
    }
}

/// The network device's configuration block: MAC, link status, queue
/// pairs and MTU.
pub struct VirtioNetCfg {
    pub mac: [u8; 6],
    pub status: u16,
    pub max_virtqueue_pairs: u16,
    pub mtu: u16,
    pub gen: u32,
}

impl VirtioDevCfg for VirtioNetCfg {
    open spec fn spec_generation(&self) -> u32 {
        self.gen
    }

    fn reset(&mut self)
        ensures
            final(self).status == 0,
            final(self).gen == (if old(self).gen == u32::MAX {
                0
            } else {
                old(self).gen + 1
            }),
            final(self).mac == old(self).mac,
            final(self).max_virtqueue_pairs == old(self).max_virtqueue_pairs,
            final(self).mtu == old(self).mtu,
    {
        self.status = 0;
        if self.gen == u32::MAX {
            self.gen = 0;
        } else {
            self.gen = self.gen + 1;
        }
    }

    fn generation(&self) -> (r: u32) {
        self.gen
    }

    fn read(&self, offset: usize, size: u8) -> (r: Option<u32>) {
        if size == 1 && offset < 6 {
            Some(self.mac[offset] as u32)
        } else if size == 2 && offset == 6 {
            Some(self.status as u32)
        } else if size == 2 && offset == 8 {
            Some(self.max_virtqueue_pairs as u32)
        } else if size == 2 && offset == 10 {
            Some(self.mtu as u32)
        } else {
            None
        }
    }

    fn write(&mut self, offset: usize, size: u8, value: u32) -> (r: Option<()>) {
        None
    }
}

/// The configuration block a device carries.
pub enum DeviceConfig {
    Entropy(VirtioRngCfg),
    Net(VirtioNetCfg),
}

/// The power-up state of a configuration block: the generation counter
/// advances; a network block also drops its link status.
pub open spec fn spec_cfg_reset(c: DeviceConfig) -> DeviceConfig {
    match c {
        DeviceConfig::Entropy(rc) => DeviceConfig::Entropy(
            VirtioRngCfg {
                gen: if rc.gen == u32::MAX {
                    0
                } else {
                    (rc.gen + 1) as u32
                },
            },
        ),
        DeviceConfig::Net(nc) => DeviceConfig::Net(
            VirtioNetCfg {
                status: 0,
                gen: if nc.gen == u32::MAX {
                    0
                } else {
                    (nc.gen + 1) as u32
                },
                ..nc
            },
        ),
    }
}

impl DeviceConfig {
    pub fn reset(&mut self)
        ensures
            *final(self) == spec_cfg_reset(*old(self)),
    {
        match self {
            DeviceConfig::Entropy(c) => c.reset(),
            DeviceConfig::Net(c) => c.reset(),
        }
    }

    pub fn generation(&self) -> u32 {
        match self {
            DeviceConfig::Entropy(c) => c.generation(),
            DeviceConfig::Net(c) => c.generation(),
        }
    }

    pub fn read(&self, offset: usize, size: u8) -> Option<u32> {
        match self {
            DeviceConfig::Entropy(c) => c.read(offset, size),
            DeviceConfig::Net(c) => c.read(offset, size),
        }
    }

    pub fn write(&mut self, offset: usize, size: u8, value: u32) -> Option<()> {
        match self {
            DeviceConfig::Entropy(c) => c.write(offset, size, value),
            DeviceConfig::Net(c) => c.write(offset, size, value),
        }
    }
}

/// One virtqueue's control block on the transport side.
pub struct VirtqManager {
    pub name: String,
    pub qnum_max: u32,
    pub qready: u32,
    pub virtq: Virtq,
}

impl VirtqManager {
    pub fn new(name: String, qnum_max: u32) -> (r: VirtqManager)
        ensures
            r.qnum_max == qnum_max,
            r.qready == 0,
            r.virtq == (Virtq { num: 0, desc: 0, avail: 0, used: 0 }),
    {
        VirtqManager { name, qnum_max, qready: 0, virtq: Virtq::new(0) }
    }
}

/// A virtio device on the mmio transport.
pub struct VirtioDevice {
    pub name: String,
    pub dev_id: VirtioId,
    /// Features the device offers.
    pub dev_feat: u64,
    /// Features the driver accepted.
    pub dri_feat: u64,
    pub dev_feat_sel: u32,
    pub dri_feat_sel: u32,
    pub qsel: u32,
    /// Interrupt status, shared with the queue workers.
    pub isr: u32,
    pub status: u8,
    pub cfg_gen: u32,
    pub cfg: DeviceConfig,
    pub vqs: Vec<VirtqManager>,
    pub irq: u32,
}

impl VirtioDevice {
    /// An entropy device with one request queue of up to 64 descriptors,
    /// offering only `VIRTIO_F_VERSION_1`.
    pub fn new_rng(name: String, irq: u32) -> (r: VirtioDevice)
        ensures
            r.dev_id == VirtioId::Entropy,
            r.dev_feat == 1u64 << 32,
            r.dri_feat == 0,
            r.status == 0,
            r.isr == 0,
            r.vqs@.len() == 1,
            r.vqs@[0].qready == 0,
            r.vqs@[0].qnum_max == 64,
            r.irq == irq,
    {
        let req_q = VirtqManager::new(name.clone(), 64);
        let mut vqs: Vec<VirtqManager> = Vec::new();
        vqs.push(req_q);
        VirtioDevice {
            name,
            dev_id: VirtioId::Entropy,
            dev_feat: 1u64 << 32,
            dri_feat: 0,
            dev_feat_sel: 0,
            dri_feat_sel: 0,
            qsel: 0,
            isr: 0,
            status: 0,
            cfg_gen: 0,
            cfg: DeviceConfig::Entropy(VirtioRngCfg { gen: 0 }),
            vqs,
            irq,
        }
    }

    /// The virtio 1.0 feature check: the driver must accept
    /// `VIRTIO_F_VERSION_1` and must not accept anything the device did
    /// not offer.
    pub fn verify_feat(&self) -> (r: Result<(), &'static str>)
        ensures
            r is Ok <==> self.feat_ok(),
    {
        if self.dri_feat & (1u64 << 32) == 0 {
            return Err("a driver must accept the VIRTIO_F_VERSION_1 feature bit");
        }
        if self.dri_feat & !self.dev_feat != 0 {
            return Err("driver activated features that are not supported by the device");
        }
        Ok(())
    }

    /// Whether the accepted features pass `verify_feat`.
    pub open spec fn feat_ok(&self) -> bool {
        self.dri_feat & (1u64 << 32) != 0 && self.dri_feat & !self.dev_feat == 0
    }
}

/// A device pinned at a guest physical page.
pub struct VirtioMmioDev {
    pub addr: usize,
    pub dev: VirtioDevice,
}

/// What the embedding host must do after a register write: start a
/// queue's worker on a fresh ring definition, stop it, or wake it.
pub enum VirtioAction {
    Nothing,
    QueueStart(usize, Virtq),
    QueueStop(usize),
    Notify(usize),
}

/// The status value actually stored for a driver store of `value`: the
/// device re-verifies FEATURES_OK (clearing it when the accepted
/// features fail the check) and refuses FEATURES_OK and DRIVER_OK in the
/// same store.
pub open spec fn spec_status_after(dev: VirtioDevice, value: u8) -> u8 {
    if value == 0 {
        0
    } else if dev.status & !value != 0 {
        value
    } else if dev.status & VIRTIO_CONFIG_S_FAILED != 0 && dev.status != value {
        value
    } else if value & VIRTIO_CONFIG_S_ACKNOWLEDGE != 0 && value & VIRTIO_CONFIG_S_DRIVER != 0
        && value & VIRTIO_CONFIG_S_FEATURES_OK != 0 && dev.status & VIRTIO_CONFIG_S_FEATURES_OK
        == 0 {
        let v1 = if dev.feat_ok() {
            value
        } else {
            value & !VIRTIO_CONFIG_S_FEATURES_OK
        };
        if value & VIRTIO_CONFIG_S_DRIVER_OK != 0 {
            v1 & !VIRTIO_CONFIG_S_DRIVER_OK
        } else {
            v1
        }
    } else {
        value
    }
}

impl VirtioMmioDev {
    /// Resets the device: accepted features, status, interrupt status,
    /// every queue's ready bit, and the config block.
    pub fn reset(&mut self)
        ensures
            final(self).dev.dri_feat == 0,
            final(self).dev.status == 0,
            final(self).dev.isr == 0,
            final(self).addr == old(self).addr,
            final(self).dev.dev_feat == old(self).dev.dev_feat,
            final(self).dev.dev_id == old(self).dev.dev_id,
            final(self).dev.irq == old(self).dev.irq,
            final(self).dev.qsel == old(self).dev.qsel,
            final(self).dev.cfg_gen == old(self).dev.cfg_gen,
            final(self).dev.dev_feat_sel == old(self).dev.dev_feat_sel,
            final(self).dev.dri_feat_sel == old(self).dev.dri_feat_sel,
            final(self).dev.cfg == spec_cfg_reset(old(self).dev.cfg),
            final(self).dev.vqs@.len() == old(self).dev.vqs@.len(),
            forall|i: int|
                0 <= i < final(self).dev.vqs@.len() ==> #[trigger] final(self).dev.vqs@[i].qready
                    == 0 && final(self).dev.vqs@[i].qnum_max == old(self).dev.vqs@[i].qnum_max
                    && final(self).dev.vqs@[i].virtq == old(self).dev.vqs@[i].virtq,
    {
        self.dev.dri_feat = 0;
        self.dev.status = 0;
        self.dev.isr = 0;
        let mut i: usize = 0;
        while i < self.dev.vqs.len()
            invariant
                i <= self.dev.vqs@.len(),
                self.dev.vqs@.len() == old(self).dev.vqs@.len(),
                self.addr == old(self).addr,
                self.dev.dri_feat == 0,
                self.dev.status == 0,
                self.dev.isr == 0,
                self.dev.dev_feat == old(self).dev.dev_feat,
                self.dev.cfg == old(self).dev.cfg,
                self.dev.dev_id == old(self).dev.dev_id,
                self.dev.irq == old(self).dev.irq,
                self.dev.qsel == old(self).dev.qsel,
                self.dev.cfg_gen == old(self).dev.cfg_gen,
                self.dev.dev_feat_sel == old(self).dev.dev_feat_sel,
                self.dev.dri_feat_sel == old(self).dev.dri_feat_sel,
                forall|j: int|
                    i <= j < self.dev.vqs@.len() ==> #[trigger] self.dev.vqs@[j] == old(self).dev.vqs@[j],
                forall|j: int|
                    0 <= j < i ==> #[trigger] self.dev.vqs@[j].qready == 0
                        && self.dev.vqs@[j].qnum_max == old(self).dev.vqs@[j].qnum_max
                        && self.dev.vqs@[j].virtq == old(self).dev.vqs@[j].virtq,
            decreases self.dev.vqs@.len() - i,
        {
            let name = self.dev.vqs[i].name.clone();
            let qnum_max = self.dev.vqs[i].qnum_max;
            let virtq = self.dev.vqs[i].virtq;
            self.dev.vqs.set(i, VirtqManager { name, qnum_max, qready: 0, virtq });
            i = i + 1;
        }
        self.dev.cfg.reset();
    }

    /// A driver load of register `gpa` with access size `size`.
    pub fn read(&self, gpa: usize, size: u8) -> (r: u32)
        requires
            self.addr <= gpa,
        ensures
            gpa - self.addr == VIRTIO_MMIO_MAGIC_VALUE && size == 4 ==> r == VIRT_MAGIC,
            gpa - self.addr == VIRTIO_MMIO_VERSION && size == 4 ==> r == VIRT_MMIO_VERSION,
            gpa - self.addr == VIRTIO_MMIO_DEVICE_ID && size == 4 ==> r
                == self.dev.dev_id.spec_code(),
            gpa - self.addr == VIRTIO_MMIO_VENDOR_ID && size == 4 ==> r == VIRT_MMIO_VENDOR,
            gpa - self.addr == VIRTIO_MMIO_DEVICE_FEATURES && size == 4 ==> r == (if
                self.dev.dev_feat_sel > 0 {
                (self.dev.dev_feat >> 32) as u32
            } else {
                self.dev.dev_feat as u32
            }),
            gpa - self.addr == VIRTIO_MMIO_QUEUE_NUM_MAX && size == 4 ==> r == (if (
            self.dev.qsel as int) < self.dev.vqs@.len() {
                self.dev.vqs@[self.dev.qsel as int].qnum_max
            } else {
                0
            }),
            gpa - self.addr == VIRTIO_MMIO_QUEUE_READY && size == 4 ==> r == (if (
            self.dev.qsel as int) < self.dev.vqs@.len() {
                self.dev.vqs@[self.dev.qsel as int].qready
            } else {
                0
            }),
            gpa - self.addr == VIRTIO_MMIO_INTERRUPT_STATUS && size == 4 ==> r == self.dev.isr,
            gpa - self.addr == VIRTIO_MMIO_STATUS && size == 4 ==> r == self.dev.status as u32,
            gpa - self.addr == VIRTIO_MMIO_CONFIG_GENERATION && size == 4 ==> r
                == self.dev.cfg_gen,
            ({
                let off = gpa - self.addr;
                (off < VIRTIO_MMIO_CONFIG && off != VIRTIO_MMIO_MAGIC_VALUE && off
                    != VIRTIO_MMIO_VERSION && off != VIRTIO_MMIO_DEVICE_ID && off
                    != VIRTIO_MMIO_VENDOR_ID && off != VIRTIO_MMIO_DEVICE_FEATURES && off
                    != VIRTIO_MMIO_QUEUE_NUM_MAX && off != VIRTIO_MMIO_QUEUE_READY && off
                    != VIRTIO_MMIO_INTERRUPT_STATUS && off != VIRTIO_MMIO_STATUS && off
                    != VIRTIO_MMIO_CONFIG_GENERATION) ==> r == 0
            }),
    {
        let offset = gpa - self.addr;
        if offset >= VIRTIO_MMIO_CONFIG {
            return match self.dev.cfg.read(offset - VIRTIO_MMIO_CONFIG, size) {
                Some(val) => val,
                None => 0,
            };
        }
        if offset == VIRTIO_MMIO_MAGIC_VALUE {
            VIRT_MAGIC
        } else if offset == VIRTIO_MMIO_VERSION {
            VIRT_MMIO_VERSION
        } else if offset == VIRTIO_MMIO_DEVICE_ID {
            self.dev.dev_id.code()
        } else if offset == VIRTIO_MMIO_VENDOR_ID {
            VIRT_MMIO_VENDOR
        } else if offset == VIRTIO_MMIO_DEVICE_FEATURES {
            if self.dev.dev_feat_sel > 0 {
                (self.dev.dev_feat >> 32) as u32
            } else {
                #[verifier::truncate] (self.dev.dev_feat as u32)
            }
        } else if offset == VIRTIO_MMIO_QUEUE_NUM_MAX {
            if (self.dev.qsel as usize) < self.dev.vqs.len() {
                self.dev.vqs[self.dev.qsel as usize].qnum_max
            } else {
                0
            }
        } else if offset == VIRTIO_MMIO_QUEUE_READY {
            if (self.dev.qsel as usize) < self.dev.vqs.len() {
                self.dev.vqs[self.dev.qsel as usize].qready
            } else {
                0
            }
        } else if offset == VIRTIO_MMIO_INTERRUPT_STATUS {
            self.dev.isr
        } else if offset == VIRTIO_MMIO_STATUS {
            self.dev.status as u32
        } else if offset == VIRTIO_MMIO_CONFIG_GENERATION {
            self.dev.cfg_gen
        } else {
            0
        }
    }

    /// A driver store of `value` to register `gpa`, returning the action
    /// the host must take towards the queue workers.
    pub fn write(&mut self, gpa: usize, size: u8, value: u32) -> (act: VirtioAction)
        requires
            old(self).addr <= gpa,
        ensures
            final(self).addr == old(self).addr,
            final(self).dev.vqs@.len() == old(self).dev.vqs@.len(),
            gpa - old(self).addr == VIRTIO_MMIO_DRIVER_FEATURES_SEL ==> final(self).dev.dri_feat_sel == value,
            gpa - old(self).addr == VIRTIO_MMIO_QUEUE_SEL ==> final(self).dev.qsel == value,
            gpa - old(self).addr == VIRTIO_MMIO_DRIVER_FEATURES && old(self).dev.status
                & VIRTIO_CONFIG_S_FEATURES_OK == 0 ==> final(self).dev.dri_feat == (if old(self).dev.dri_feat_sel > 0 {
                (old(self).dev.dri_feat & 0xffffffff) | (value as u64) << 32
            } else {
                (old(self).dev.dri_feat & 0xffffffff00000000) | value as u64
            }),
            gpa - old(self).addr == VIRTIO_MMIO_STATUS && value as u8 != 0 ==> final(self).dev.status == spec_status_after(old(self).dev, value as u8) && final(self).dev.dri_feat == old(self).dev.dri_feat && final(self).dev.isr == old(self).dev.isr
                && final(self).dev.qsel == old(self).dev.qsel && final(self).dev.dev_feat == old(self).dev.dev_feat && final(self).dev.dev_feat_sel == old(self).dev.dev_feat_sel && final(self).dev.dri_feat_sel == old(self).dev.dri_feat_sel && final(self).dev.cfg == old(self).dev.cfg && final(self).dev.cfg_gen == old(self).dev.cfg_gen && final(self).dev.vqs@
                == old(self).dev.vqs@,
            gpa - old(self).addr == VIRTIO_MMIO_STATUS && value as u8 == 0 ==> final(self).dev.status == 0 && final(self).dev.dri_feat == 0 && final(self).dev.isr == 0
                && final(self).dev.cfg == spec_cfg_reset(old(self).dev.cfg) && (forall|i: int|
                0 <= i < final(self).dev.vqs@.len() ==> #[trigger] final(self).dev.vqs@[i].qready
                    == 0 && final(self).dev.vqs@[i].qnum_max == old(self).dev.vqs@[i].qnum_max
                    && final(self).dev.vqs@[i].virtq == old(self).dev.vqs@[i].virtq),
            gpa - old(self).addr == VIRTIO_MMIO_INTERRUPT_ACK ==> final(self).dev.isr == old(self).dev.isr & !value,
            gpa - old(self).addr == VIRTIO_MMIO_QUEUE_READY && (old(self).dev.qsel as int) < old(self).dev.vqs@.len() && old(self).dev.vqs@[old(self).dev.qsel as int].qready == 0 && value
                == 1 ==> act == VirtioAction::QueueStart(
                old(self).dev.qsel as usize,
                old(self).dev.vqs@[old(self).dev.qsel as int].virtq,
            ) && final(self).dev.vqs@[old(self).dev.qsel as int].qready == 1,
            gpa - old(self).addr == VIRTIO_MMIO_QUEUE_READY && (old(self).dev.qsel as int) < old(self).dev.vqs@.len() && old(self).dev.vqs@[old(self).dev.qsel as int].qready == 1 && value
                == 0 ==> act == VirtioAction::QueueStop(old(self).dev.qsel as usize) && final(self).dev.vqs@[old(self).dev.qsel as int].qready == 0,
            gpa - old(self).addr == VIRTIO_MMIO_QUEUE_NOTIFY ==> (act == (if old(self).dev.status
                & VIRTIO_CONFIG_S_DRIVER_OK != 0 && value < old(self).dev.vqs@.len() {
                VirtioAction::Notify(value as usize)
            } else {
                VirtioAction::Nothing
            })),
    {
        let offset = gpa - self.addr;
        if offset >= VIRTIO_MMIO_CONFIG {
            self.dev.cfg.write(offset - VIRTIO_MMIO_CONFIG, size, value);
            return VirtioAction::Nothing;
        }
        if offset == VIRTIO_MMIO_DEVICE_FEATURES_SEL {
            self.dev.dev_feat_sel = value;
        } else if offset == VIRTIO_MMIO_DRIVER_FEATURES {
            if self.dev.status & VIRTIO_CONFIG_S_FEATURES_OK != 0 {
                // Features are frozen once FEATURES_OK is set.
            } else if self.dev.dri_feat_sel > 0 {
                self.dev.dri_feat = (self.dev.dri_feat & 0xffffffff) | (value as u64) << 32;
            } else {
                self.dev.dri_feat = (self.dev.dri_feat & 0xffffffff00000000) | value as u64;
            }
        } else if offset == VIRTIO_MMIO_DRIVER_FEATURES_SEL {
            self.dev.dri_feat_sel = value;
        } else if offset == VIRTIO_MMIO_QUEUE_SEL {
            self.dev.qsel = value;
        } else if offset == VIRTIO_MMIO_QUEUE_NUM {
            let qsel = self.dev.qsel as usize;
            if qsel < self.dev.vqs.len() && value <= self.dev.vqs[qsel].qnum_max {
                let name = self.dev.vqs[qsel].name.clone();
                let qnum_max = self.dev.vqs[qsel].qnum_max;
                let qready = self.dev.vqs[qsel].qready;
                let mut virtq = self.dev.vqs[qsel].virtq;
                virtq.num = value;
                self.dev.vqs.set(qsel, VirtqManager { name, qnum_max, qready, virtq });
            }
        } else if offset == VIRTIO_MMIO_QUEUE_READY {
            let qsel = self.dev.qsel as usize;
            if qsel >= self.dev.vqs.len() {
                return VirtioAction::Nothing;
            }
            let qready = self.dev.vqs[qsel].qready;
            let name = self.dev.vqs[qsel].name.clone();
            let qnum_max = self.dev.vqs[qsel].qnum_max;
            let virtq = self.dev.vqs[qsel].virtq;
            self.dev.vqs.set(qsel, VirtqManager { name, qnum_max, qready: value, virtq });
            if qready == 0 && value == 1 {
                return VirtioAction::QueueStart(qsel, virtq);
            } else if qready == 1 && value == 0 {
                return VirtioAction::QueueStop(qsel);
            }
        } else if offset == VIRTIO_MMIO_QUEUE_NOTIFY {
            if self.dev.status & VIRTIO_CONFIG_S_DRIVER_OK != 0 && (value as usize)
                < self.dev.vqs.len() {
                return VirtioAction::Notify(value as usize);
            }
        } else if offset == VIRTIO_MMIO_INTERRUPT_ACK {
            self.dev.isr = self.dev.isr & !value;
        } else if offset == VIRTIO_MMIO_STATUS {
            let v: u8 = #[verifier::truncate] (value as u8);
            if v == 0 {
                self.reset();
            } else if self.dev.status & !v != 0 {
                // The driver may not clear status bits without a reset.
                self.dev.status = v;
            } else if self.dev.status & VIRTIO_CONFIG_S_FAILED != 0 && self.dev.status != v {
                self.dev.status = v;
            } else {
                let mut stored = v;
                if v & VIRTIO_CONFIG_S_ACKNOWLEDGE != 0 && v & VIRTIO_CONFIG_S_DRIVER != 0 && v
                    & VIRTIO_CONFIG_S_FEATURES_OK != 0 && self.dev.status
                    & VIRTIO_CONFIG_S_FEATURES_OK == 0 {
                    if self.dev.verify_feat().is_err() {
                        stored = stored & !VIRTIO_CONFIG_S_FEATURES_OK;
                    }
                    if v & VIRTIO_CONFIG_S_DRIVER_OK != 0 {
                        stored = stored & !VIRTIO_CONFIG_S_DRIVER_OK;
                    }
                }
                self.dev.status = stored;
            }
        } else if offset == VIRTIO_MMIO_QUEUE_DESC_LOW {
            self.update_ring_addr(0, false, value);
        } else if offset == VIRTIO_MMIO_QUEUE_DESC_HIGH {
            self.update_ring_addr(0, true, value);
        } else if offset == VIRTIO_MMIO_QUEUE_AVAIL_LOW {
            self.update_ring_addr(1, false, value);
        } else if offset == VIRTIO_MMIO_QUEUE_AVAIL_HIGH {
            self.update_ring_addr(1, true, value);
        } else if offset == VIRTIO_MMIO_QUEUE_USED_LOW {
            self.update_ring_addr(2, false, value);
        } else if offset == VIRTIO_MMIO_QUEUE_USED_HIGH {
            self.update_ring_addr(2, true, value);
        } else {
            // Stores to read-only or unknown registers are dropped.
        }
        VirtioAction::Nothing
    }

    /// Replaces one half of a ring address of the selected queue, as the
    /// QueueDesc/QueueAvail/QueueUsed register pairs do; the store only
    /// lands while the selected queue exists and is not ready.
    fn update_ring_addr(&mut self, ring: u8, high: bool, value: u32)
        ensures
            final(self).addr == old(self).addr,
            final(self).dev.vqs@.len() == old(self).dev.vqs@.len(),
            final(self).dev.qsel == old(self).dev.qsel,
            final(self).dev.status == old(self).dev.status,
            final(self).dev.isr == old(self).dev.isr,
            final(self).dev.dri_feat == old(self).dev.dri_feat,
            (old(self).dev.qsel as int >= old(self).dev.vqs@.len() || old(self).dev.vqs@[old(self).dev.qsel as int].qready != 0) ==> *final(self) == *old(self),
            ((old(self).dev.qsel as int) < old(self).dev.vqs@.len() && old(self).dev.vqs@[old(self).dev.qsel as int].qready == 0) ==> ({
                let q = old(self).dev.vqs@[old(self).dev.qsel as int];
                let cur = if ring == 0 {
                    q.virtq.desc
                } else if ring == 1 {
                    q.virtq.avail
                } else {
                    q.virtq.used
                };
                let updated = if high {
                    (cur & 0xffffffff) | (value as u64) << 32
                } else {
                    (cur & 0xffffffff00000000) | value as u64
                };
                let nq = final(self).dev.vqs@[old(self).dev.qsel as int];
                &&& nq.qready == q.qready
                &&& nq.qnum_max == q.qnum_max
                &&& nq.name@ == q.name@
                &&& nq.virtq == (if ring == 0 {
                    Virtq { desc: updated, ..q.virtq }
                } else if ring == 1 {
                    Virtq { avail: updated, ..q.virtq }
                } else {
                    Virtq { used: updated, ..q.virtq }
                })
                &&& (forall|j: int|
                    0 <= j < old(self).dev.vqs@.len() && j != old(self).dev.qsel as int
                        ==> final(self).dev.vqs@[j] == old(self).dev.vqs@[j])
            }),
    {
        let qsel = self.dev.qsel as usize;
        if qsel >= self.dev.vqs.len() || self.dev.vqs[qsel].qready != 0 {
            return ;
        }
        let name = self.dev.vqs[qsel].name.clone();
        let qnum_max = self.dev.vqs[qsel].qnum_max;
        let qready = self.dev.vqs[qsel].qready;
        let mut virtq = self.dev.vqs[qsel].virtq;
        let cur: u64 = if ring == 0 {
            virtq.desc
        } else if ring == 1 {
            virtq.avail
        } else {
            virtq.used
        };
        let mut updated: u64 = cur;
        if high {
            crate::utils::set_u64_high(&mut updated, value);
        } else {
            crate::utils::set_u64_low(&mut updated, value);
        }
        if ring == 0 {
            virtq.desc = updated;
        } else if ring == 1 {
            virtq.avail = updated;
        } else {
            virtq.used = updated;
        }
        self.dev.vqs.set(qsel, VirtqManager { name, qnum_max, qready, virtq });
    }
}

/// Fills `[offset, offset + len)` of `mem` with bytes drawn from the
/// host's random source.
fn fill_random(mem: &mut MachVMBlock, offset: usize, len: usize)
    requires
        offset + len <= old(mem)@.len(),
    ensures
        final(mem).start == old(mem).start,
        final(mem)@.len() == old(mem)@.len(),
        forall|i: int|
            0 <= i < old(mem)@.len() && !(offset <= i < offset + len) ==> final(mem)@[i] == old(mem)@[i],
    {
    let mut i: usize = 0;
    while i < len
        invariant
            i <= len,
            offset + len <= mem@.len(),
            mem.start == old(mem).start,
            mem@.len() == old(mem)@.len(),
            forall|j: int|
                0 <= j < old(mem)@.len() && !(offset <= j < offset + len) ==> mem@[j] == old(mem)@[j],
        decreases len - i,
    {
        let b: u8 = #[verifier::truncate] ((random_u64() & 0xff) as u8);
        mem.write_u8(b, offset, i);
        i = i + 1;
    }
}

/// Serves one available-ring slot of the entropy device's request queue:
/// walks the descriptor chain, fills each buffer with random bytes, and
/// publishes the used-ring entry `(id = head, len = bytes written)`.
///
/// On success the returned pair is the head and the byte count, the
/// used-ring element for the old used index holds exactly that pair, and
/// the count equals the byte sum of the chain's buffers (every buffer of
/// an entropy request is device-writable).
pub fn rng_serve_avail_slot(virtq: &VirtqHva, mem: &mut MachVMBlock, slot: u16, convert:
    &AddressConverter) -> (r: Result<(u16, u32), Error>)
    requires
        virtq.rings_in(old(mem).start as int, old(mem)@.len() as int),
        convert.low_mem_start + convert.low_mem_size <= usize::MAX,
    ensures
        final(mem).start == old(mem).start,
        final(mem)@.len() == old(mem)@.len(),
        ({
            let head = spec_avail_at(
                old(mem)@,
                virtq.avail - old(mem).start,
                slot as int % virtq.num as int,
            );
            let walk = spec_chain_from(
                old(mem)@,
                old(mem).start as int,
                *virtq,
                *convert,
                head as int,
                0,
                virtq.num as nat,
            );
            let used_base = virtq.used - old(mem).start;
            let used_idx = crate::mach::le16_at(old(mem)@, used_base + 2);
            &&& (r is Ok <==> match walk {
                Option::Some(out) => out.1 == out.0.len() && chain_buffers_in(
                    out.0,
                    old(mem).start as int,
                    old(mem)@.len() as int,
                ),
                Option::None => false,
            })
            &&& r is Ok ==> ({
                &&& r->Ok_0.0 == head
                &&& r->Ok_0.1 as int == chain_bytes(walk->Some_0.0) % 0x100000000
                &&& spec_used_at(final(mem)@, used_base, used_idx as int % virtq.num as int) == (
                VirtqUsedElem { id: head as u32, len: r->Ok_0.1 })
                &&& crate::mach::le16_at(final(mem)@, used_base + 2) == ((used_idx + 1) % 0x10000)
                    as u16
            })
        }),
    {
    let n0: usize = mem.size();
    let head = virtq.read_avail(mem, slot);
    let (chain, writable_count) = match virtq.get_desc_chain(mem, slot, convert) {
        Ok(c) => c,
        Err(e) => {
            return Err(e);
        },
    };
    proof {
        lemma_chain_from_shape(
            mem@,
            mem.start as int,
            *virtq,
            *convert,
            spec_avail_at(mem@, virtq.avail - mem.start, slot as int % virtq.num as int) as int,
            0,
            virtq.num as nat,
        );
    }
    if writable_count != chain.len() {
        return Err(
            Error::Program("an entropy request chain must be entirely device-writable".to_owned()),
        );
    }
    let used_base = virtq.used - mem.start;
    let used_idx = mem.read_u16(used_base + 2, 0);
    let slot_idx = (used_idx as usize) % (virtq.num as usize);

    let mut total: u64 = 0;
    let mut k: usize = 0;
    let ghost pre = mem@;
    while k < chain.len()
        invariant
            k <= chain@.len(),
            chain@.len() <= 0x8000,
            writable_count == chain@.len(),
            spec_chain_from(
                old(mem)@,
                old(mem).start as int,
                *virtq,
                *convert,
                spec_avail_at(
                    old(mem)@,
                    virtq.avail - old(mem).start,
                    slot as int % virtq.num as int,
                ) as int,
                0,
                virtq.num as nat,
            ) == Option::Some((chain@, writable_count as int)),
            forall|j: int| 0 <= j < chain@.len() ==> #[trigger] chain@[j].1 <= 0xffffffff,
            mem.start == old(mem).start,
            mem@.len() == old(mem)@.len(),
            mem@.len() == n0,
            total == chain_bytes(chain@.take(k as int)),
            total <= k * 0x100000000,
            forall|j: int|
                0 <= j < k ==> #[trigger] crate::virtq::buffer_in(
                    chain@[j],
                    old(mem).start as int,
                    n0 as int,
                ),
        decreases chain@.len() - k,
    {
        let (addr, len) = chain[k];
        if addr < mem.start || len > n0 || addr - mem.start > n0 - len {
            proof {
                assert(!crate::virtq::buffer_in(chain@[k as int], old(mem).start as int, n0 as int));
                assert(!chain_buffers_in(chain@, old(mem).start as int, old(mem)@.len() as int));
            }
            return Err(Error::Program("an entropy buffer lies outside guest memory".to_owned()));
        }
        fill_random(mem, addr - mem.start, len);
        proof {
            assert(chain@.take(k + 1).drop_last() =~= chain@.take(k as int));
            assert(total + len <= (k + 1) * 0x100000000) by (nonlinear_arith)
                requires
                    total <= k * 0x100000000 && len < 0x100000000 && k >= 0,
            ;
        }
        total = total + len as u64;
        k = k + 1;
    }
    proof {
        assert(chain@.take(chain@.len() as int) =~= chain@);
    }
    let written: u32 = #[verifier::truncate] ((total % 0x100000000) as u32);
    mem.write_u32(head as u32, used_base + 4 + VIRTQ_USED_ELEM_SIZE * slot_idx, 0);
    mem.write_u32(written, used_base + 4 + VIRTQ_USED_ELEM_SIZE * slot_idx + 4, 0);
    let next_idx: u16 = #[verifier::truncate] ((((used_idx as u32) + 1) % 0x10000) as u16);
    mem.write_u16(next_idx, used_base + 2, 0);
    Ok((head, written))
}

} // verus!
