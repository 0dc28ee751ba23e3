//! The DMA engine: the fixed array of sixteen channels at
//! `DMA_BASE_ADDR + i * DMA_CHANNEL_SIZE`, the shared clock refcount they
//! gate, and the interrupt demultiplexer that hands a completion to the
//! owning channel.

use vstd::prelude::*;

use crate::dma::{
    spec_abort, spec_do_xfer, spec_handle_interrupt, DMAChannel, DMAChannelNum, DMAClient,
    DMAPeripheral, DMAWidth,
};
use crate::refcount::ResourceRefcount;

verus! {

/// The number of channels the PDCA provides.
pub const NUM_DMA_CHANNELS: usize = 16;

/// How many channels of a sequence are enabled.
pub open spec fn enabled_count(s: Seq<DMAChannel>) -> int
    decreases s.len(),
{
    if s.len() == 0 {
        0
    } else {
        enabled_count(s.drop_last()) + (if s.last().enabled {
            1int
        } else {
            0int
        })
    }
}

/// The enabled count lies between zero and the sequence's length.
pub proof fn lemma_enabled_count_bounds(s: Seq<DMAChannel>)
    ensures
        0 <= enabled_count(s) <= s.len(),
    decreases s.len(),
{
    if s.len() > 0 {
        lemma_enabled_count_bounds(s.drop_last());
    }
}

/// Appending a channel adds its own contribution to the enabled count.
pub proof fn lemma_enabled_count_push(s: Seq<DMAChannel>, c: DMAChannel)
    ensures
        enabled_count(s.push(c)) == enabled_count(s) + (if c.enabled {
            1int
        } else {
            0int
        }),
{
    assert(s.push(c).drop_last() =~= s);
    assert(s.push(c).last() == c);
}

/// Replacing one channel shifts the enabled count by the difference of the
/// two channels' contributions.
pub proof fn lemma_enabled_count_update(s: Seq<DMAChannel>, i: int, v: DMAChannel)
    requires
        0 <= i < s.len(),
    ensures
        enabled_count(s.update(i, v)) == enabled_count(s) + (if v.enabled {
            1int
        } else {
            0int
        }) - (if s[i].enabled {
            1int
        } else {
            0int
        }),
    decreases s.len(),
{
    let t = s.update(i, v);
    if i == s.len() - 1 {
        assert(t.drop_last() =~= s.drop_last());
        assert(t.last() == v);
    } else {
        assert(t.drop_last() =~= s.drop_last().update(i, v));
        lemma_enabled_count_update(s.drop_last(), i, v);
        assert(t.last() == s.last());
    }
}

/// A sequence with an enabled channel has a positive enabled count.
pub proof fn lemma_enabled_count_positive(s: Seq<DMAChannel>, i: int)
    requires
        0 <= i < s.len(),
        s[i].enabled,
    ensures
        enabled_count(s) >= 1,
    decreases s.len(),
{
    if i == s.len() - 1 {
        lemma_enabled_count_bounds(s.drop_last());
    } else {
        lemma_enabled_count_positive(s.drop_last(), i);
    }
}

/// The sixteen PDCA channels and the clock refcount they share. The engine
/// holds no further state; the hardware arbitrates among concurrent
/// channels, so no fairness is promised here.
pub struct DMAEngine {
    /// The channels, indexed by channel number.
    pub channels: Vec<DMAChannel>,
    /// The shared clock-gating refcount.
    pub clocks: ResourceRefcount,
}

impl DMAEngine {
    /// The engine's invariant: sixteen well-formed channels in register
    /// order, and the clock refcount equal to the number of enabled
    /// channels — so the clock runs exactly while some channel is enabled.
    pub open spec fn wf(self) -> bool {
        &&& self.channels@.len() == NUM_DMA_CHANNELS
        &&& forall|i: int|
            0 <= i < NUM_DMA_CHANNELS ==> (#[trigger] self.channels@[i]).wf()
        &&& forall|i: int|
            0 <= i < NUM_DMA_CHANNELS ==> (#[trigger] self.channels@[i]).channel.channel_id()
                == i
        &&& self.clocks.wf()
        &&& self.clocks.count == enabled_count(self.channels@)
    }

    /// The engine as it stands at boot: every channel disabled, the clock
    /// off.
    pub fn new() -> (r: DMAEngine)
        ensures
            r.wf(),
            r.clocks.count == 0,
            !r.clocks.clock_enabled,
            forall|i: int|
                0 <= i < NUM_DMA_CHANNELS ==> !(#[trigger] r.channels@[i]).enabled,
            forall|i: int|
                0 <= i < NUM_DMA_CHANNELS ==> (#[trigger] r.channels@[i])@.buffer is None,
    {
        let mut channels: Vec<DMAChannel> = Vec::new();
        let mut i: usize = 0;
        while i < NUM_DMA_CHANNELS
            invariant
                i <= NUM_DMA_CHANNELS,
                channels@.len() == i,
                forall|j: int| 0 <= j < i ==> (#[trigger] channels@[j]).wf(),
                forall|j: int|
                    0 <= j < i ==> (#[trigger] channels@[j]).channel.channel_id() == j,
                forall|j: int| 0 <= j < i ==> !(#[trigger] channels@[j]).enabled,
                forall|j: int| 0 <= j < i ==> ((#[trigger] channels@[j])@.buffer is None),
                enabled_count(channels@) == 0,
            decreases NUM_DMA_CHANNELS - i,
        {
            let c = DMAChannel::new(DMAChannelNum::from_index(i));
            proof {
                lemma_enabled_count_push(channels@, c);
            }
            channels.push(c);
            i = i + 1;
        }
        DMAEngine { channels, clocks: ResourceRefcount::new() }
    }

    /// Installs the client and width on one channel.
    pub fn initialize_channel(&mut self, idx: usize, width: DMAWidth)
        requires
            old(self).wf(),
            idx < NUM_DMA_CHANNELS,
            (old(self).channels@[idx as int].buffer is None),
        ensures
            final(self).wf(),
            final(self).clocks == old(self).clocks,
            (final(self).channels@ == old(self).channels@.update(
                idx as int,
                DMAChannel {
                    client_installed: true,
                    width,
                    ..old(self).channels@[idx as int]
                },
            )),
    {
        proof {
            lemma_enabled_count_update(
                self.channels@,
                idx as int,
                DMAChannel { client_installed: true, width, ..self.channels@[idx as int] },
            );
        }
        let ch = &mut self.channels[idx];
        ch.initialize(width);
    }

    /// Enables one channel, acquiring the shared clock on its transition
    /// from disabled. Returns whether the hardware clock lines must be
    /// switched on now.
    pub fn enable_channel(&mut self, idx: usize) -> (enable_clock_now: bool)
        requires
            old(self).wf(),
            idx < NUM_DMA_CHANNELS,
        ensures
            final(self).wf(),
            final(self).channels@[idx as int].enabled,
            final(self).clocks.clock_enabled,
            (forall|j: int|
                0 <= j < NUM_DMA_CHANNELS && j != idx ==> final(self).channels@[j] == old(
                    self,
                ).channels@[j]),
            (old(self).channels@[idx as int].enabled ==> final(self).channels@ == old(
                self,
            ).channels@ && final(self).clocks == old(self).clocks && !enable_clock_now),
            (!old(self).channels@[idx as int].enabled ==> final(self).clocks.count == old(
                self,
            ).clocks.count + 1 && enable_clock_now == (old(self).clocks.count == 0)),
    {
        proof {
            lemma_enabled_count_bounds(self.channels@);
            if self.channels@[idx as int].enabled {
                lemma_enabled_count_positive(self.channels@, idx as int);
                lemma_enabled_count_update(
                    self.channels@,
                    idx as int,
                    self.channels@[idx as int],
                );
            } else {
                lemma_enabled_count_update(
                    self.channels@,
                    idx as int,
                    DMAChannel {
                        enabled: true,
                        registers: crate::dma::DMARegisters {
                            interrupts_unmasked: false,
                            ..self.channels@[idx as int].registers
                        },
                        ..self.channels@[idx as int]
                    },
                );
            }
        }
        let ch = &mut self.channels[idx];
        let r = ch.enable(&mut self.clocks);
        proof {
            assert(self.channels@ =~= old(self).channels@.update(
                idx as int,
                self.channels@[idx as int],
            ));
            if old(self).channels@[idx as int].enabled {
                assert(self.channels@ =~= old(self).channels@);
            }
        }
        r
    }

    /// Disables one channel: an active transfer is aborted and its buffer
    /// returned, and the shared clock reference is dropped on the
    /// transition from enabled. Returns the reclaimed buffer, if any, and
    /// whether the hardware clock lines must be switched off now.
    pub fn disable_channel(&mut self, idx: usize) -> (r: (Option<Vec<u8>>, bool))
        requires
            old(self).wf(),
            idx < NUM_DMA_CHANNELS,
        ensures
            final(self).wf(),
            !final(self).channels@[idx as int].enabled,
            (final(self).channels@[idx as int].buffer is None),
            (forall|j: int|
                0 <= j < NUM_DMA_CHANNELS && j != idx ==> final(self).channels@[j] == old(
                    self,
                ).channels@[j]),
            (!old(self).channels@[idx as int].enabled ==> final(self).channels@ == old(
                self,
            ).channels@ && final(self).clocks == old(self).clocks && r.0 is None && !r.1),
            (old(self).channels@[idx as int].enabled ==> r.0 == old(self).channels@[idx as int].buffer
                && final(self).clocks.count == old(self).clocks.count - 1
                && r.1 == (old(self).clocks.count == 1)),
    {
        proof {
            if self.channels@[idx as int].enabled {
                lemma_enabled_count_positive(self.channels@, idx as int);
                lemma_enabled_count_update(
                    self.channels@,
                    idx as int,
                    DMAChannel {
                        enabled: false,
                        registers: crate::dma::DMARegisters {
                            interrupts_unmasked: false,
                            tcr: 0,
                            ten: false,
                            ..self.channels@[idx as int].registers
                        },
                        buffer: None,
                        ..self.channels@[idx as int]
                    },
                );
            }
        }
        let ch = &mut self.channels[idx];
        let r = ch.disable(&mut self.clocks);
        proof {
            assert(self.channels@ =~= old(self).channels@.update(
                idx as int,
                self.channels@[idx as int],
            ));
            if !old(self).channels@[idx as int].enabled {
                assert(self.channels@ =~= old(self).channels@);
            }
        }
        r
    }

    /// Arms and starts a transfer on one channel.
    pub fn do_xfer(&mut self, idx: usize, pid: DMAPeripheral, buf: Vec<u8>, len: usize)
        requires
            old(self).wf(),
            idx < NUM_DMA_CHANNELS,
            old(self).channels@[idx as int].enabled,
            (old(self).channels@[idx as int].buffer is None),
            len <= 0xffff_ffff,
        ensures
            final(self).wf(),
            final(self).clocks == old(self).clocks,
            (forall|j: int|
                0 <= j < NUM_DMA_CHANNELS && j != idx ==> final(self).channels@[j] == old(
                    self,
                ).channels@[j]),
            (final(self).channels@[idx as int]@ == spec_do_xfer(
                old(self).channels@[idx as int]@,
                pid,
                buf@,
                len as nat,
            )),
    {
        let ch = &mut self.channels[idx];
        ch.do_xfer(pid, buf, len);
        proof {
            lemma_enabled_count_update(old(self).channels@, idx as int, self.channels@[idx as int]);
            assert(self.channels@ =~= old(self).channels@.update(
                idx as int,
                self.channels@[idx as int],
            ));
        }
    }

    /// Aborts any transaction on one channel and hands back its buffer.
    pub fn abort_xfer(&mut self, idx: usize) -> (r: Option<Vec<u8>>)
        requires
            old(self).wf(),
            idx < NUM_DMA_CHANNELS,
        ensures
            final(self).wf(),
            final(self).clocks == old(self).clocks,
            r == old(self).channels@[idx as int].buffer,
            (final(self).channels@[idx as int].buffer is None),
            (forall|j: int|
                0 <= j < NUM_DMA_CHANNELS && j != idx ==> final(self).channels@[j] == old(
                    self,
                ).channels@[j]),
            (final(self).channels@[idx as int]@ == spec_abort(
                old(self).channels@[idx as int]@,
            ).0),
    {
        let ch = &mut self.channels[idx];
        let r = ch.abort_xfer();
        proof {
            lemma_enabled_count_update(old(self).channels@, idx as int, self.channels@[idx as int]);
            assert(self.channels@ =~= old(self).channels@.update(
                idx as int,
                self.channels@[idx as int],
            ));
        }
        r
    }

    /// Reads one channel's current transfer counter.
    pub fn transfer_counter(&self, idx: usize) -> (r: usize)
        requires
            self.wf(),
            idx < NUM_DMA_CHANNELS,
        ensures
            r == self.channels@[idx as int].registers.tcr,
    {
        self.channels[idx].transfer_counter()
    }

    /// Interrupt entry for one channel: the channel masks its interrupts
    /// and, when a client is installed, the completion is delivered to it
    /// with the endpoint the channel was serving. The client reclaims the
    /// buffer through `abort_xfer` before issuing the next transfer.
    pub fn handle_interrupt<C: DMAClient>(&mut self, idx: usize, client: &mut C)
        requires
            old(self).wf(),
            idx < NUM_DMA_CHANNELS,
        ensures
            final(self).wf(),
            final(self).clocks == old(self).clocks,
            (forall|j: int|
                0 <= j < NUM_DMA_CHANNELS && j != idx ==> final(self).channels@[j] == old(
                    self,
                ).channels@[j]),
            (final(self).channels@[idx as int]@ == spec_handle_interrupt(
                old(self).channels@[idx as int]@,
            )),
    {
        let ch = &mut self.channels[idx];
        let pid = ch.handle_interrupt();
        proof {
            lemma_enabled_count_update(old(self).channels@, idx as int, self.channels@[idx as int]);
            assert(self.channels@ =~= old(self).channels@.update(
                idx as int,
                self.channels@[idx as int],
            ));
        }
        match pid {
            Some(p) => client.xfer_done(p),
            None => (),
        }
    }
}

} // verus!
