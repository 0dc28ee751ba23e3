//! The peripheral-DMA (PDCA) channel engine: sixteen channels, each owning a
//! transfer buffer for the duration of a transfer to or from a named
//! peripheral endpoint, with a shared clock-gating refcount.
//!
//! The channel's memory-mapped register block is modeled as plain state in
//! [`DMARegisters`]; the memory-address registers (MAR/MARR) are represented
//! by the channel's ownership of the transfer buffer itself.

use vstd::prelude::*;

use crate::refcount::ResourceRefcount;

verus! {

/// The PDCA's base address in memory.
pub const DMA_BASE_ADDR: usize = 0x400A2000;

/// The number of bytes between each memory-mapped DMA channel.
pub const DMA_CHANNEL_SIZE: usize = 0x40;

/// The DMA channel number. Each channel transfers data between memory and a
/// particular peripheral function (e.g., SPI read or SPI write, but not both
/// simultaneously). There are 16 available channels.
#[derive(Copy, Clone)]
pub enum DMAChannelNum {
    DMAChannel00,
    DMAChannel01,
    DMAChannel02,
    DMAChannel03,
    DMAChannel04,
    DMAChannel05,
    DMAChannel06,
    DMAChannel07,
    DMAChannel08,
    DMAChannel09,
    DMAChannel10,
    DMAChannel11,
    DMAChannel12,
    DMAChannel13,
    DMAChannel14,
    DMAChannel15,
}

impl DMAChannelNum {
    /// The channel's index among the sixteen register blocks.
    pub open spec fn channel_id(self) -> int {
        match self {
            DMAChannelNum::DMAChannel00 => 0,
            DMAChannelNum::DMAChannel01 => 1,
            DMAChannelNum::DMAChannel02 => 2,
            DMAChannelNum::DMAChannel03 => 3,
            DMAChannelNum::DMAChannel04 => 4,
            DMAChannelNum::DMAChannel05 => 5,
            DMAChannelNum::DMAChannel06 => 6,
            DMAChannelNum::DMAChannel07 => 7,
            DMAChannelNum::DMAChannel08 => 8,
            DMAChannelNum::DMAChannel09 => 9,
            DMAChannelNum::DMAChannel10 => 10,
            DMAChannelNum::DMAChannel11 => 11,
            DMAChannelNum::DMAChannel12 => 12,
            DMAChannelNum::DMAChannel13 => 13,
            DMAChannelNum::DMAChannel14 => 14,
            DMAChannelNum::DMAChannel15 => 15,
        }
    }

    /// The channel's index, as a machine integer.
    pub fn index(self) -> (r: usize)
        ensures
            r == self.channel_id(),
    {
        match self {
            DMAChannelNum::DMAChannel00 => 0,
            DMAChannelNum::DMAChannel01 => 1,
            DMAChannelNum::DMAChannel02 => 2,
            DMAChannelNum::DMAChannel03 => 3,
            DMAChannelNum::DMAChannel04 => 4,
            DMAChannelNum::DMAChannel05 => 5,
            DMAChannelNum::DMAChannel06 => 6,
            DMAChannelNum::DMAChannel07 => 7,
            DMAChannelNum::DMAChannel08 => 8,
            DMAChannelNum::DMAChannel09 => 9,
            DMAChannelNum::DMAChannel10 => 10,
            DMAChannelNum::DMAChannel11 => 11,
            DMAChannelNum::DMAChannel12 => 12,
            DMAChannelNum::DMAChannel13 => 13,
            DMAChannelNum::DMAChannel14 => 14,
            DMAChannelNum::DMAChannel15 => 15,
        }
    }

    /// The channel built from an index below sixteen.
    pub fn from_index(i: usize) -> (r: DMAChannelNum)
        requires
            i < 16,
        ensures
            r.channel_id() == i,
    {
        match i {
            0 => DMAChannelNum::DMAChannel00,
            1 => DMAChannelNum::DMAChannel01,
            2 => DMAChannelNum::DMAChannel02,
            3 => DMAChannelNum::DMAChannel03,
            4 => DMAChannelNum::DMAChannel04,
            5 => DMAChannelNum::DMAChannel05,
            6 => DMAChannelNum::DMAChannel06,
            7 => DMAChannelNum::DMAChannel07,
            8 => DMAChannelNum::DMAChannel08,
            9 => DMAChannelNum::DMAChannel09,
            10 => DMAChannelNum::DMAChannel10,
            11 => DMAChannelNum::DMAChannel11,
            12 => DMAChannelNum::DMAChannel12,
            13 => DMAChannelNum::DMAChannel13,
            14 => DMAChannelNum::DMAChannel14,
            _ => DMAChannelNum::DMAChannel15,
        }
    }

    /// The base address of this channel's register block.
    pub fn register_base(self) -> (r: usize)
        ensures
            r == DMA_BASE_ADDR + self.channel_id() * DMA_CHANNEL_SIZE,
    {
        DMA_BASE_ADDR + self.index() * DMA_CHANNEL_SIZE
    }
}

/// The peripheral function a channel is assigned to. An `_RX` endpoint
/// transfers data from the peripheral to memory, a `_TX` endpoint from memory
/// to the peripheral. The tag is exactly the byte written to the channel's
/// peripheral-select register, so the type is closed over a byte's worth of
/// values; tags with no named function are simply unused.
#[derive(Copy, Clone, PartialEq, Eq, Structural, Debug)]
pub struct DMAPeripheral {
    /// The numeric tag as the peripheral-select register holds it.
    pub id: u8,
}

impl DMAPeripheral {
    /// The endpoint whose peripheral-select tag is `num`.
    pub fn lookup(self, num: u8) -> (r: DMAPeripheral)
        ensures
            r.id == num,
    {
        DMAPeripheral { id: num }
    }
}

/// The width of the unit a channel moves per transfer count.
#[derive(Copy, Clone, Debug, PartialEq, Eq, Structural)]
pub enum DMAWidth {
    Width8Bit,
    Width16Bit,
    Width32Bit,
}

impl DMAWidth {
    /// Bytes per transfer unit: one, two or four.
    pub open spec fn spec_width_bytes(self) -> nat {
        match self {
            DMAWidth::Width8Bit => 1,
            DMAWidth::Width16Bit => 2,
            DMAWidth::Width32Bit => 4,
        }
    }

    /// Bytes per transfer unit, as a machine integer.
    pub fn width_bytes(self) -> (r: usize)
        ensures
            r == self.spec_width_bytes(),
    {
        match self {
            DMAWidth::Width8Bit => 1,
            DMAWidth::Width16Bit => 2,
            DMAWidth::Width32Bit => 4,
        }
    }

    /// The encoding of this width in the mode register's size field.
    pub fn size_mode(self) -> (r: u32)
        ensures
            r == match self {
                DMAWidth::Width8Bit => 0int,
                DMAWidth::Width16Bit => 1int,
                DMAWidth::Width32Bit => 2int,
            },
    {
        match self {
            DMAWidth::Width8Bit => 0,
            DMAWidth::Width16Bit => 1,
            DMAWidth::Width32Bit => 2,
        }
    }
}

/// A client of a channel: the capsule that owns the transfer and reclaims
/// the buffer once completion is delivered.
pub trait DMAClient {
    /// Called at interrupt time when the channel's transfer has completed;
    /// `pid` is the endpoint the channel was serving.
    fn xfer_done(&mut self, pid: DMAPeripheral);
}

/// The software-visible state of one channel's register block. The
/// memory-address register and its reload twin are not listed: the buffer
/// they would point at is owned by the channel itself while armed.
#[derive(Copy, Clone, PartialEq, Eq, Structural)]
pub struct DMARegisters {
    /// Peripheral-select: the tag of the endpoint the channel serves.
    pub psr: u8,
    /// Transfer counter: units remaining in the current transfer.
    pub tcr: u32,
    /// Transfer-counter reload: the unit count armed for the next transfer.
    pub tcrr: u32,
    /// The size-of-transfer field of the mode register (0 byte, 1 halfword,
    /// 2 word).
    pub size_mode: u32,
    /// Whether transfer is enabled (control-register TEN against TDIS).
    pub ten: bool,
    /// Whether the transfer-complete interrupt is unmasked.
    pub interrupts_unmasked: bool,
}

impl DMARegisters {
    /// A register block as it reads after reset.
    pub open spec fn reset() -> DMARegisters {
        DMARegisters {
            psr: 0,
            tcr: 0,
            tcrr: 0,
            size_mode: 0,
            ten: false,
            interrupts_unmasked: false,
        }
    }
}

/// The mathematical state of a channel: its registers and ownership, with
/// the buffer abstracted to its byte sequence.
pub struct ChannelModel {
    pub channel: int,
    pub regs: DMARegisters,
    pub client_installed: bool,
    pub width: DMAWidth,
    pub enabled: bool,
    pub buffer: Option<Seq<u8>>,
}

/// One PDCA channel. It owns its transfer buffer from `prepare` until the
/// client reclaims it after completion (or `abort_xfer` hands it back), so
/// there is never shared mutable aliasing of a buffer in flight.
pub struct DMAChannel {
    /// Which of the sixteen channels this is.
    pub channel: DMAChannelNum,
    /// The modeled register block at `DMA_BASE_ADDR + i * DMA_CHANNEL_SIZE`.
    pub registers: DMARegisters,
    /// Whether a client has been installed. The client is a weak
    /// back-reference: the kernel holds it and dispatches completions by
    /// channel index, so ownership flows only from capsule to channel.
    pub client_installed: bool,
    /// The width of one transfer unit.
    pub width: DMAWidth,
    /// Whether the channel is enabled (holding the clock).
    pub enabled: bool,
    /// The buffer owned by the channel: `Some` exactly while a transfer is
    /// in flight or completed but not yet reclaimed.
    pub buffer: Option<Vec<u8>>,
}

impl View for DMAChannel {
    type V = ChannelModel;

    open spec fn view(&self) -> ChannelModel {
        ChannelModel {
            channel: self.channel.channel_id(),
            regs: self.registers,
            client_installed: self.client_installed,
            width: self.width,
            enabled: self.enabled,
            buffer: match self.buffer {
                Some(b) => Some(b@),
                None => None,
            },
        }
    }
}

/// The number of transfer units a request for `len` units on a buffer of
/// `buf_len` bytes actually arms: `len` clamped to what the buffer holds.
pub open spec fn effective_len(len: nat, buf_len: nat, width: DMAWidth) -> nat {
    let max = buf_len / width.spec_width_bytes();
    if len <= max {
        len
    } else {
        max
    }
}

/// The channel state after `prepare`: the transfer armed but not started.
pub open spec fn spec_prepare(c: ChannelModel, pid: DMAPeripheral, buf: Seq<u8>, len: nat) -> ChannelModel {
    ChannelModel {
        regs: DMARegisters {
            psr: pid.id,
            tcrr: effective_len(len, buf.len(), c.width) as u32,
            size_mode: match c.width {
                DMAWidth::Width8Bit => 0,
                DMAWidth::Width16Bit => 1,
                DMAWidth::Width32Bit => 2,
            },
            interrupts_unmasked: true,
            ..c.regs
        },
        buffer: Some(buf),
        ..c
    }
}

/// The channel state after `start_xfer`: transfer-enable set.
pub open spec fn spec_start(c: ChannelModel) -> ChannelModel {
    ChannelModel { regs: DMARegisters { ten: true, ..c.regs }, ..c }
}

/// The channel state after `do_xfer`: prepared, then started.
pub open spec fn spec_do_xfer(c: ChannelModel, pid: DMAPeripheral, buf: Seq<u8>, len: nat) -> ChannelModel {
    spec_start(spec_prepare(c, pid, buf, len))
}

/// The channel state after the completion interrupt is handled: interrupts
/// masked again, the buffer still held for the client to reclaim.
pub open spec fn spec_handle_interrupt(c: ChannelModel) -> ChannelModel {
    ChannelModel { regs: DMARegisters { interrupts_unmasked: false, ..c.regs }, ..c }
}

/// The channel state and yielded buffer after `abort_xfer`: interrupts
/// masked, the counter zeroed, and the buffer (if any) given back.
pub open spec fn spec_abort(c: ChannelModel) -> (ChannelModel, Option<Seq<u8>>) {
    (
        ChannelModel {
            regs: DMARegisters { interrupts_unmasked: false, tcr: 0, ..c.regs },
            buffer: None,
            ..c
        },
        c.buffer,
    )
}

impl DMAChannel {
    /// The channel never holds a buffer while disabled: a transfer can only
    /// be in flight on an enabled channel.
    pub open spec fn wf(self) -> bool {
        self.buffer is Some ==> self.enabled
    }

    /// A channel as it stands at boot: disabled, no client, byte width,
    /// registers reset, no buffer.
    pub fn new(channel: DMAChannelNum) -> (r: DMAChannel)
        ensures
            r.wf(),
            r.channel == channel,
            r.registers == DMARegisters::reset(),
            !r.client_installed,
            r.width == DMAWidth::Width8Bit,
            !r.enabled,
            (r@.buffer is None),
    {
        DMAChannel {
            channel,
            registers: DMARegisters {
                psr: 0,
                tcr: 0,
                tcrr: 0,
                size_mode: 0,
                ten: false,
                interrupts_unmasked: false,
            },
            client_installed: false,
            width: DMAWidth::Width8Bit,
            enabled: false,
            buffer: None,
        }
    }

    /// Installs the client and fixes the transfer width. Must not be called
    /// while a transfer is in flight.
    pub fn initialize(&mut self, width: DMAWidth)
        requires
            (old(self).buffer is None),
        ensures
            final(self).wf(),
            (*final(self) == DMAChannel {
                client_installed: true,
                width,
                ..*old(self)
            }),
    {
        self.client_installed = true;
        self.width = width;
    }

    /// Enables the channel: on the transition from disabled, takes one
    /// reference on the shared clock and masks the channel's interrupts.
    /// Returns whether the caller must switch the hardware clock lines on
    /// now (the refcount's first acquisition).
    pub fn enable(&mut self, clocks: &mut ResourceRefcount) -> (enable_clock_now: bool)
        requires
            old(clocks).wf(),
            old(clocks).count < usize::MAX,
        ensures
            final(clocks).wf(),
            (old(self).wf() ==> final(self).wf()),
            final(self).enabled,
            (old(self).enabled ==> *final(self) == *old(self) && *final(clocks) == *old(clocks)
                && !enable_clock_now),
            (!old(self).enabled ==> *final(self) == (DMAChannel {
                enabled: true,
                registers: DMARegisters { interrupts_unmasked: false, ..old(self).registers },
                ..*old(self)
            }) && final(clocks).count == old(clocks).count + 1
                && enable_clock_now == (old(clocks).count == 0)),
    {
        if !self.enabled {
            let enable_now = clocks.acquire();
            self.registers.interrupts_unmasked = false;
            self.enabled = true;
            enable_now
        } else {
            false
        }
    }

    /// Disables the channel: an active transfer is first aborted and its
    /// buffer handed back, transfer-disable is issued, and the channel's
    /// clock reference is dropped. Returns the reclaimed buffer, if any,
    /// and whether the caller must switch the hardware clock lines off now
    /// (the refcount's last release).
    pub fn disable(&mut self, clocks: &mut ResourceRefcount) -> (r: (Option<Vec<u8>>, bool))
        requires
            old(self).wf(),
            old(clocks).wf(),
            (old(self).enabled ==> old(clocks).count > 0),
        ensures
            final(clocks).wf(),
            final(self).wf(),
            !final(self).enabled,
            (final(self).buffer is None),
            (!old(self).enabled ==> *final(self) == *old(self) && *final(clocks) == *old(clocks)
                && r.0 is None && !r.1),
            (old(self).enabled ==> *final(self) == (DMAChannel {
                enabled: false,
                registers: DMARegisters {
                    interrupts_unmasked: false,
                    tcr: 0,
                    ten: false,
                    ..old(self).registers
                },
                buffer: None,
                ..*old(self)
            }) && r.0 == old(self).buffer
                && final(clocks).count == old(clocks).count - 1
                && r.1 == (old(clocks).count == 1)),
    {
        if self.enabled {
            let buf = self.abort_xfer();
            self.registers.ten = false;
            let disable_now = clocks.release();
            self.enabled = false;
            (buf, disable_now)
        } else {
            (None, false)
        }
    }

    /// Arms a transfer: stores the buffer, loads the counter-reload with the
    /// clamped length, selects the peripheral and size mode, and unmasks the
    /// completion interrupt. The requested `len` is clamped to the number of
    /// whole transfer units the buffer holds.
    pub fn prepare_xfer(&mut self, pid: DMAPeripheral, buf: Vec<u8>, len: usize)
        requires
            old(self).enabled,
            (old(self).buffer is None),
            len <= 0xffff_ffff,
        ensures
            final(self).wf(),
            final(self)@ == spec_prepare(old(self)@, pid, buf@, len as nat),
    {
        let maxlen = buf.len() / self.width.width_bytes();
        let eff = if len <= maxlen {
            len
        } else {
            maxlen
        };
        self.registers.size_mode = self.width.size_mode();
        self.registers.psr = pid.id;
        self.registers.tcrr = eff as u32;
        self.registers.interrupts_unmasked = true;
        self.buffer = Some(buf);
    }

    /// Starts the armed transfer by setting transfer-enable.
    pub fn start_xfer(&mut self)
        requires
            old(self).enabled,
            (old(self).buffer is Some),
        ensures
            final(self).wf(),
            final(self)@ == spec_start(old(self)@),
    {
        self.registers.ten = true;
    }

    /// Arms and starts a transfer in one step.
    pub fn do_xfer(&mut self, pid: DMAPeripheral, buf: Vec<u8>, len: usize)
        requires
            old(self).enabled,
            (old(self).buffer is None),
            len <= 0xffff_ffff,
        ensures
            final(self).wf(),
            final(self)@ == spec_do_xfer(old(self)@, pid, buf@, len as nat),
    {
        self.prepare_xfer(pid, buf, len);
        self.start_xfer();
    }

    /// Aborts any current transaction: masks the channel's interrupts,
    /// zeroes the transfer counter, and returns the buffer used in the
    /// transaction, if one was held.
    pub fn abort_xfer(&mut self) -> (r: Option<Vec<u8>>)
        ensures
            final(self).wf(),
            (*final(self) == DMAChannel {
                registers: DMARegisters {
                    interrupts_unmasked: false,
                    tcr: 0,
                    ..old(self).registers
                },
                buffer: None,
                ..*old(self)
            }),
            r == old(self).buffer,
            final(self)@ == spec_abort(old(self)@).0,
    {
        self.registers.interrupts_unmasked = false;
        self.registers.tcr = 0;
        self.buffer.take()
    }

    /// Reads the current transfer counter.
    pub fn transfer_counter(&self) -> (r: usize)
        ensures
            r == self.registers.tcr,
    {
        self.registers.tcr as usize
    }

    /// Handles the channel's completion interrupt: masks the channel's
    /// interrupts and reports the endpoint the channel was serving, to be
    /// delivered to the installed client. Yields nothing when no client was
    /// ever installed. The buffer stays with the channel until the client
    /// reclaims it.
    pub fn handle_interrupt(&mut self) -> (r: Option<DMAPeripheral>)
        ensures
            final(self).wf() == old(self).wf(),
            final(self)@ == spec_handle_interrupt(old(self)@),
            (r == if old(self).client_installed {
                Some(DMAPeripheral { id: old(self).registers.psr })
            } else {
                None::<DMAPeripheral>
            }),
    {
        self.registers.interrupts_unmasked = false;
        let pid = DMAPeripheral { id: self.registers.psr };
        if self.client_installed {
            Some(pid)
        } else {
            None
        }
    }
}

/// A submitted transfer's buffer is reclaimable exactly once after
/// completion, with contents identical to what was submitted: after
/// `do_xfer` and the completion interrupt, the first reclaim yields the
/// submitted bytes and a second reclaim yields nothing. (For a receiving
/// endpoint the peripheral's writes land in the buffer outside this model;
/// the ownership discipline is the same.)
pub proof fn lemma_transfer_buffer_round_trip(c: ChannelModel, pid: DMAPeripheral, buf: Seq<u8>, len: nat)
    requires
        (c.buffer is None),
    ensures
        ({
            let completed = spec_handle_interrupt(spec_do_xfer(c, pid, buf, len));
            let (after_first, first) = spec_abort(completed);
            let (_, second) = spec_abort(after_first);
            first == Some(buf) && second is None
        }),
{
}

} // verus!
