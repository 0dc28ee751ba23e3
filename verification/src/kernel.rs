//! The kernel's cooperative scheduling decisions: bottom-half work first,
//! then a Ready process picked round-robin, and a low-power sleep when
//! neither exists. The loop around these decisions performs the actual
//! hardware work and process resumption; every decision it acts on is
//! computed and specified here.

use vstd::prelude::*;

use crate::process::{FaultResponse, Process, ProcessState, Upcall};

verus! {

/// A system call as a process traps into the kernel: the driver id, the
/// command number, and two arguments.
#[derive(Copy, Clone, PartialEq, Eq, Structural, Debug)]
pub struct Syscall {
    /// The driver id the call addresses.
    pub driver_num: usize,
    /// The command number within that driver.
    pub command_num: u32,
    /// First argument.
    pub arg1: u32,
    /// Second argument.
    pub arg2: u32,
}

/// Why a running process gave control back to the kernel.
#[derive(Copy, Clone, PartialEq, Eq, Structural, Debug)]
pub enum StopReason {
    /// It made a system call.
    Syscall(Syscall),
    /// It yielded, waiting for an upcall.
    Yielded,
    /// It exhausted its timeslice.
    TimesliceExpired,
    /// It faulted: a memory violation, illegal instruction or stack
    /// overflow.
    Faulted,
}

/// What the kernel loop does next.
#[derive(Copy, Clone, PartialEq, Eq, Structural, Debug)]
pub enum SchedDecision {
    /// Let the capsule with this pending flag run its bottom half to
    /// completion.
    RunBottomHalf(usize),
    /// Resume this process until its next scheduling point.
    RunProcess(usize),
    /// Nothing to do: enter the low-power wait for interrupt.
    Sleep,
}

/// The index `k` steps past `last` in a ring of `n` slots.
pub open spec fn spec_rotated(n: int, last: int, k: int) -> int {
    (last + 1 + k) % n
}

/// The kernel's scheduling state: the process slots, one bottom-half
/// pending flag per interrupt source, and where the round-robin left off.
pub struct KernelState {
    /// The process slots the loader filled.
    pub processes: Vec<Process>,
    /// Per-source flags set at interrupt time; a set flag means that
    /// capsule has bottom-half work waiting.
    pub pending: Vec<bool>,
    /// The slot that ran last; the round-robin resumes after it.
    pub last_scheduled: usize,
}

impl KernelState {
    /// The slot count stays small and the round-robin cursor stays in
    /// range.
    pub open spec fn wf(self) -> bool {
        &&& self.processes@.len() <= 0x1000
        &&& (self.processes@.len() > 0 ==> self.last_scheduled < self.processes@.len())
        &&& (self.processes@.len() == 0 ==> self.last_scheduled == 0)
    }

    /// A kernel over freshly loaded processes: nothing pending, the
    /// round-robin at slot zero.
    pub fn new(processes: Vec<Process>, num_sources: usize) -> (r: KernelState)
        requires
            processes@.len() <= 0x1000,
        ensures
            r.wf(),
            r.processes@ == processes@,
            r.pending@.len() == num_sources,
            (forall|i: int| 0 <= i < num_sources ==> !(#[trigger] r.pending@[i])),
            r.last_scheduled == 0,
    {
        let mut pending: Vec<bool> = Vec::new();
        let mut i: usize = 0;
        while i < num_sources
            invariant
                i <= num_sources,
                pending@.len() == i,
                forall|j: int| 0 <= j < i ==> !(#[trigger] pending@[j]),
            decreases num_sources - i,
        {
            pending.push(false);
            i = i + 1;
        }
        KernelState { processes, pending, last_scheduled: 0 }
    }

    /// Records that an interrupt source fired: its capsule has bottom-half
    /// work waiting.
    pub fn set_pending(&mut self, source: usize)
        requires
            source < old(self).pending@.len(),
        ensures
            final(self).pending@ == old(self).pending@.update(source as int, true),
            final(self).processes@ == old(self).processes@,
            final(self).last_scheduled == old(self).last_scheduled,
    {
        self.pending.set(source, true);
    }

    /// One scheduling decision. Bottom-half work comes first: the lowest
    /// pending flag is cleared and its capsule runs. Otherwise the next
    /// Ready process after the last scheduled one (round-robin) is marked
    /// Running. With neither, the kernel sleeps until an interrupt.
    pub fn schedule(&mut self) -> (d: SchedDecision)
        requires
            old(self).wf(),
        ensures
            final(self).wf(),
            (match d {
                SchedDecision::RunBottomHalf(i) => i < old(self).pending@.len()
                    && old(self).pending@[i as int] && (forall|j: int|
                    0 <= j < i ==> !old(self).pending@[j]) && final(self).pending@ == old(
                    self,
                ).pending@.update(i as int, false) && final(self).processes@ == old(
                    self,
                ).processes@ && final(self).last_scheduled == old(self).last_scheduled,
                SchedDecision::RunProcess(i) => (forall|j: int|
                    0 <= j < old(self).pending@.len() ==> !old(self).pending@[j]) && i < old(
                    self,
                ).processes@.len() && old(self).processes@[i as int].state == ProcessState::Ready
                    && final(self).processes@ == old(self).processes@.update(
                    i as int,
                    Process {
                        state: ProcessState::Running,
                        ..old(self).processes@[i as int]
                    },
                ) && final(self).last_scheduled == i && final(self).pending@ == old(self).pending@
                    && (exists|k: int|
                    0 <= k < old(self).processes@.len() && i == spec_rotated(
                        old(self).processes@.len() as int,
                        old(self).last_scheduled as int,
                        k,
                    ) && (forall|j: int|
                        0 <= j < k ==> old(self).processes@[spec_rotated(
                            old(self).processes@.len() as int,
                            old(self).last_scheduled as int,
                            j,
                        )].state != ProcessState::Ready)),
                SchedDecision::Sleep => (forall|j: int|
                    0 <= j < old(self).pending@.len() ==> !old(self).pending@[j]) && (forall|
                    j: int,
                |
                    0 <= j < old(self).processes@.len() ==> old(self).processes@[j].state
                        != ProcessState::Ready) && final(self).pending@ == old(self).pending@
                    && final(self).processes@ == old(self).processes@ && final(self).last_scheduled == old(self).last_scheduled,
            }),
    {
        let nsrc = self.pending.len();
        let mut s: usize = 0;
        while s < nsrc
            invariant
                old(self).wf(),
                s <= nsrc,
                nsrc == self.pending@.len(),
                self.pending@ == old(self).pending@,
                self.processes@ == old(self).processes@,
                self.last_scheduled == old(self).last_scheduled,
                forall|j: int| 0 <= j < s ==> !self.pending@[j],
            decreases nsrc - s,
        {
            if self.pending[s] {
                self.pending.set(s, false);
                return SchedDecision::RunBottomHalf(s);
            }
            s = s + 1;
        }
        let n = self.processes.len();
        if n == 0 {
            return SchedDecision::Sleep;
        }
        let mut k: usize = 0;
        while k < n
            invariant
                old(self).wf(),
                k <= n,
                n == self.processes@.len(),
                n > 0,
                n <= 0x1000,
                self.last_scheduled < n,
                self.pending@ == old(self).pending@,
                self.processes@ == old(self).processes@,
                self.last_scheduled == old(self).last_scheduled,
                (forall|j: int| 0 <= j < self.pending@.len() ==> !self.pending@[j]),
                forall|j: int|
                    0 <= j < k ==> self.processes@[spec_rotated(
                        n as int,
                        self.last_scheduled as int,
                        j,
                    )].state != ProcessState::Ready,
            decreases n - k,
        {
            let idx = (self.last_scheduled + 1 + k) % n;
            proof {
                assert(spec_rotated(n as int, self.last_scheduled as int, k as int)
                    == idx as int);
            }
            if self.processes[idx].state == ProcessState::Ready {
                let p = &mut self.processes[idx];
                p.state = ProcessState::Running;
                self.last_scheduled = idx;
                return SchedDecision::RunProcess(idx);
            }
            k = k + 1;
        }
        proof {
            assert forall|j: int| 0 <= j < n implies self.processes@[j].state
                != ProcessState::Ready by {
                let last = self.last_scheduled as int;
                let ni = n as int;
                let kk = if j > last {
                    j - last - 1
                } else {
                    j - last - 1 + ni
                };
                assert(0 <= kk < ni);
                vstd::arithmetic::div_mod::lemma_small_mod(j as nat, ni as nat);
                if j <= last {
                    vstd::arithmetic::div_mod::lemma_mod_multiples_vanish(1, j, ni);
                }
                assert(spec_rotated(ni, last, kk) == j);
                assert(self.processes@[spec_rotated(ni, last, kk)].state
                    != ProcessState::Ready);
            }
        }
        SchedDecision::Sleep
    }

    /// Records why the running process stopped and applies the transition:
    /// a system call or an exhausted timeslice leaves it Ready, a yield
    /// parks it until an upcall, and a fault applies the process's own
    /// policy — Panic halts the kernel (the return value), Restart
    /// re-initializes the slot as Ready and drops its pending upcalls.
    pub fn report_stop(&mut self, reason: StopReason) -> (halt: bool)
        requires
            old(self).wf(),
            old(self).processes@.len() > 0,
            old(self).processes@[old(self).last_scheduled as int].state == ProcessState::Running,
        ensures
            final(self).wf(),
            final(self).pending@ == old(self).pending@,
            final(self).last_scheduled == old(self).last_scheduled,
            ({
                let i = old(self).last_scheduled as int;
                let p = old(self).processes@[i];
                match reason {
                    StopReason::Syscall(_) => !halt && final(self).processes@ == old(
                        self,
                    ).processes@.update(i, Process { state: ProcessState::Ready, ..p }),
                    StopReason::Yielded => !halt && final(self).processes@ == old(
                        self,
                    ).processes@.update(i, Process { state: ProcessState::Yielded, ..p }),
                    StopReason::TimesliceExpired => !halt && final(self).processes@ == old(
                        self,
                    ).processes@.update(i, Process { state: ProcessState::Ready, ..p }),
                    StopReason::Faulted => match p.fault_response {
                        FaultResponse::Panic => halt && final(self).processes@ == old(
                            self,
                        ).processes@.update(i, Process { state: ProcessState::Fault, ..p }),
                        FaultResponse::Restart => !halt && final(self).processes@.len() == old(
                            self,
                        ).processes@.len() && final(self).processes@[i].state
                            == ProcessState::Ready && final(self).processes@[i].upcalls@.len()
                            == 0 && final(self).processes@[i].descriptor == p.descriptor && final(self).processes@[i].fault_response == p.fault_response && (forall|j: int|
                            0 <= j < old(self).processes@.len() && j != i ==> final(self).processes@[j] == old(self).processes@[j]),
                    },
                }
            }),
    {
        let i = self.last_scheduled;
        match reason {
            StopReason::Syscall(_) => {
                let p = &mut self.processes[i];
                p.state = ProcessState::Ready;
                false
            },
            StopReason::Yielded => {
                let p = &mut self.processes[i];
                p.state = ProcessState::Yielded;
                false
            },
            StopReason::TimesliceExpired => {
                let p = &mut self.processes[i];
                p.state = ProcessState::Ready;
                false
            },
            StopReason::Faulted => {
                let p = &mut self.processes[i];
                match p.fault_response {
                    FaultResponse::Panic => {
                        p.state = ProcessState::Fault;
                        true
                    },
                    FaultResponse::Restart => {
                        p.state = ProcessState::Ready;
                        p.upcalls = Vec::new();
                        false
                    },
                }
            },
        }
    }

    /// Queues an upcall for a process; upcalls are delivered in the order
    /// they were queued.
    pub fn enqueue_upcall(&mut self, i: usize, u: Upcall)
        requires
            i < old(self).processes@.len(),
        ensures
            final(self).pending@ == old(self).pending@,
            final(self).last_scheduled == old(self).last_scheduled,
            (final(self).processes@ == old(self).processes@.update(
                i as int,
                Process {
                    upcalls: final(self).processes@[i as int].upcalls,
                    ..old(self).processes@[i as int]
                },
            )),
            final(self).processes@[i as int].upcalls@ == old(self).processes@[i as int].upcalls@
                .push(u),
    {
        let p = &mut self.processes[i];
        p.enqueue_upcall(u);
    }

    /// Delivers the oldest upcall waiting for a process, waking it if it
    /// had yielded. Yields nothing when the queue is empty.
    pub fn deliver_upcall(&mut self, i: usize) -> (r: Option<Upcall>)
        requires
            i < old(self).processes@.len(),
        ensures
            final(self).pending@ == old(self).pending@,
            final(self).last_scheduled == old(self).last_scheduled,
            final(self).processes@.len() == old(self).processes@.len(),
            (forall|j: int|
                0 <= j < old(self).processes@.len() && j != i ==> final(self).processes@[j] == old(
                    self,
                ).processes@[j]),
            ({
                let p = old(self).processes@[i as int];
                let q = final(self).processes@[i as int];
                &&& q.descriptor == p.descriptor
                &&& q.fault_response == p.fault_response
                &&& (p.upcalls@.len() == 0 ==> r is None && q.state == p.state && q.upcalls@
                    == p.upcalls@)
                &&& (p.upcalls@.len() > 0 ==> r == Some(p.upcalls@[0]) && q.upcalls@
                    == p.upcalls@.subrange(1, p.upcalls@.len() as int) && q.state == (
                if p.state == ProcessState::Yielded {
                    ProcessState::Ready
                } else {
                    p.state
                }))
            }),
    {
        let r = self.processes[i].dequeue_upcall();
        match r {
            Some(_) => {
                let was_yielded = self.processes[i].state == ProcessState::Yielded;
                if was_yielded {
                    let p = &mut self.processes[i];
                    p.state = ProcessState::Ready;
                }
            },
            None => (),
        }
        r
    }
}

} // verus!
