//! A 16550-style serial port, register-accurate enough to boot a guest.
//!
//! The embedding host feeds bytes from its input into the receive FIFO
//! with `push_input` and raises the port's IRQ; a write to the transmit
//! register hands the byte back to the host, which prints it and raises
//! the IRQ as well.

use std::collections::VecDeque;
use vstd::prelude::*;

verus! {

/// Interrupt-identification value: received data available.
pub const DATA_AVAILABLE: u8 = 2;

/// Interrupt-identification value: transmitter has room.
pub const ROOM_AVAILABLE: u8 = 1;

/// The 16550's register file and receive FIFO.
pub struct Serial {
    /// Interrupt enable register.
    pub ier: u8,
    /// FIFO control register (write side of offset 2).
    pub fcr: u8,
    /// Line control register; bit 7 is DLAB.
    pub lcr: u8,
    /// Modem control register.
    pub mcr: u8,
    /// Line status register.
    pub lsr: u8,
    /// Modem status register.
    pub msr: u8,
    /// Scratch register.
    pub scr: u8,
    /// Baud-rate divisor, reachable while DLAB is set.
    pub divisor: u16,
    /// Bytes received from the host, oldest first.
    pub in_data: VecDeque<u8>,
    /// The interrupt line this port raises.
    pub irq: u32,
}

impl Serial {
    /// Whether the divisor latch is mapped over the data registers.
    pub open spec fn dlab(&self) -> bool {
        self.lcr & 0x80 != 0
    }

    /// A fresh port: interrupts off, 8 data bits, transmitter empty, no
    /// pending input.
    pub fn new(irq: u32) -> (r: Serial)
        ensures
            r.irq == irq,
            r.ier == 0,
            r.fcr == 0,
            r.lcr == 3,
            r.mcr == 0,
            r.lsr == 0x60,
            r.msr == 0,
            r.scr == 0,
            r.divisor == 0,
            r.in_data@.len() == 0,
    {
        Serial {
            ier: 0,
            fcr: 0,
            lcr: 3,
            mcr: 0,
            lsr: 0x60,
            msr: 0,
            scr: 0,
            divisor: 0,
            in_data: VecDeque::new(),
            irq,
        }
    }

    /// Queues one byte of host input; the host raises the IRQ after.
    pub fn push_input(&mut self, byte: u8)
        ensures
            *final(self) == (Serial { in_data: final(self).in_data, ..*old(self) }),
            final(self).in_data@ == old(self).in_data@.push(byte),
    {
        self.in_data.push_back(byte);
    }

    /// A load from register `offset`: the receive buffer (or divisor low
    /// half under DLAB) at 0, the interrupt-enable register (or divisor
    /// high half) at 1, the interrupt identification at 2, then LCR, MCR,
    /// the line status (data-ready tracking the FIFO, transmitter always
    /// empty), MSR and scratch.
    pub fn read(&mut self, offset: u16) -> (r: u8)
        requires
            offset <= 7,
        ensures
            final(self).irq == old(self).irq,
            offset == 0 && !old(self).dlab() ==> (if old(self).in_data@.len() > 0 {
                r == old(self).in_data@[0] && final(self).in_data@ == old(self).in_data@.subrange(
                    1,
                    old(self).in_data@.len() as int,
                )
            } else {
                r == 0xff && final(self).in_data@ == old(self).in_data@
            }) && final(self).ier == old(self).ier && final(self).lcr == old(self).lcr && final(self).lsr == old(self).lsr && final(self).divisor == old(self).divisor,
            offset == 0 && old(self).dlab() ==> r == (old(self).divisor & 0xff) as u8 && *final(self) == *old(self),
            offset == 1 && !old(self).dlab() ==> r == old(self).ier && *final(self) == *old(self),
            offset == 1 && old(self).dlab() ==> r == (old(self).divisor >> 8) as u8 && *final(self)
                == *old(self),
            offset == 2 ==> r == (if old(self).in_data@.len() > 0 {
                DATA_AVAILABLE * 2
            } else {
                ROOM_AVAILABLE * 2
            }) && *final(self) == *old(self),
            offset == 3 ==> r == old(self).lcr && *final(self) == *old(self),
            offset == 4 ==> r == old(self).mcr && *final(self) == *old(self),
            offset == 5 ==> ({
                &&& final(self).in_data@ == old(self).in_data@
                &&& (r & 1 != 0 <==> old(self).in_data@.len() > 0)
                &&& r & 0x20 != 0
                &&& r == final(self).lsr
            }),
            offset == 6 ==> r == old(self).msr && *final(self) == *old(self),
            offset == 7 ==> r == old(self).scr && *final(self) == *old(self),
    {
        if offset == 0 {
            if self.lcr & 0x80 == 0 {
                match self.in_data.pop_front() {
                    Some(b) => b,
                    None => 0xff,
                }
            } else {
                (self.divisor & 0xff) as u8
            }
        } else if offset == 1 {
            if self.lcr & 0x80 == 0 {
                self.ier
            } else {
                (self.divisor >> 8) as u8
            }
        } else if offset == 2 {
            if self.in_data.len() > 0 {
                DATA_AVAILABLE * 2
            } else {
                ROOM_AVAILABLE * 2
            }
        } else if offset == 3 {
            self.lcr
        } else if offset == 4 {
            self.mcr
        } else if offset == 5 {
            let base = self.lsr;
            let had: bool = self.in_data.len() > 0;
            let with_ready: u8 = if had {
                base | 1
            } else {
                base & 0xfe
            };
            let r: u8 = with_ready | 0x20;
            self.lsr = r;
            proof {
                assert((r & 1 != 0 <==> had) && r & 0x20 != 0) by (bit_vector)
                    requires
                        (had ==> r == (base | 1) | 0x20) && (!had ==> r == (base & 0xfe) | 0x20),
                ;
            }
            r
        } else if offset == 6 {
            self.msr
        } else {
            self.scr
        }
    }

    /// A store to register `offset`.  A store to the transmit register
    /// while DLAB is clear hands the byte back: the host must write it to
    /// its output and raise this port's IRQ.  Every other store updates
    /// the named register or the divisor latch.
    pub fn write(&mut self, offset: u16, value: u8) -> (out: Option<u8>)
        requires
            offset <= 7,
        ensures
            final(self).irq == old(self).irq,
            final(self).in_data@ == old(self).in_data@,
            offset == 0 && !old(self).dlab() ==> out == Some(value) && *final(self) == *old(self),
            offset == 0 && old(self).dlab() ==> out is None && *final(self) == (Serial {
                divisor: (old(self).divisor & 0xff00) | value as u16,
                ..*old(self)
            }),
            offset == 1 && !old(self).dlab() ==> out is None && *final(self) == (Serial {
                ier: value,
                ..*old(self)
            }),
            offset == 1 && old(self).dlab() ==> out is None && *final(self) == (Serial {
                divisor: (old(self).divisor & 0xff) | (value as u16) << 8,
                ..*old(self)
            }),
            offset == 2 ==> out is None && *final(self) == (Serial { fcr: value, ..*old(self) }),
            offset == 3 ==> out is None && *final(self) == (Serial { lcr: value, ..*old(self) }),
            offset == 4 ==> out is None && *final(self) == (Serial { mcr: value, ..*old(self) }),
            offset == 5 ==> out is None && *final(self) == (Serial { lsr: value, ..*old(self) }),
            offset == 6 ==> out is None && *final(self) == (Serial { msr: value, ..*old(self) }),
            offset == 7 ==> out is None && *final(self) == (Serial { scr: value, ..*old(self) }),
    {
        if offset == 0 {
            if self.lcr & 0x80 == 0 {
                Some(value)
            } else {
                self.divisor = (self.divisor & 0xff00) | value as u16;
                None
            }
        } else if offset == 1 {
            if self.lcr & 0x80 == 0 {
                self.ier = value;
            } else {
                self.divisor = (self.divisor & 0xff) | (value as u16) << 8;
            }
            None
        } else if offset == 2 {
            self.fcr = value;
            None
        } else if offset == 3 {
            self.lcr = value;
            None
        } else if offset == 4 {
            self.mcr = value;
            None
        } else if offset == 5 {
            self.lsr = value;
            None
        } else if offset == 6 {
            self.msr = value;
            None
        } else {
            self.scr = value;
            None
        }
    }
}

} // verus!
