//! Process descriptors: execution state, the configured fault policy, and
//! the pending-upcall queue, delivered in the order it was filled.

use vstd::prelude::*;

use crate::loader::LoadedProcess;

verus! {

/// A process's execution state.
#[derive(Copy, Clone, PartialEq, Eq, Structural, Debug)]
pub enum ProcessState {
    /// Runnable: waiting for the scheduler to pick it.
    Ready,
    /// Currently executing.
    Running,
    /// Waiting for an upcall after yielding.
    Yielded,
    /// Stopped by a memory violation, illegal instruction or stack
    /// overflow.
    Fault,
}

/// How the kernel responds when a process faults.
#[derive(Copy, Clone, PartialEq, Eq, Structural, Debug)]
pub enum FaultResponse {
    /// Halt the kernel with debug output.
    Panic,
    /// Re-initialize the process from its flash image.
    Restart,
}

/// An upcall a capsule scheduled for a process: the callback's function
/// pointer and the user data handed back with it.
#[derive(Copy, Clone, PartialEq, Eq, Structural, Debug)]
pub struct Upcall {
    /// The callback's address in the process's code.
    pub fn_ptr: u32,
    /// The word the process asked to receive back.
    pub userdata: u32,
}

/// One process slot: the loader's descriptor, the execution state, the
/// fault policy, and the queue of upcalls awaiting delivery.
pub struct Process {
    /// Where the process lives in flash and RAM.
    pub descriptor: LoadedProcess,
    /// The current execution state.
    pub state: ProcessState,
    /// What the kernel does if this process faults.
    pub fault_response: FaultResponse,
    /// Upcalls awaiting delivery, oldest first.
    pub upcalls: Vec<Upcall>,
}

impl Process {
    /// A freshly loaded process: ready to run, nothing queued.
    pub fn new(descriptor: LoadedProcess, fault_response: FaultResponse) -> (r: Process)
        ensures
            r.descriptor == descriptor,
            r.state == ProcessState::Ready,
            r.fault_response == fault_response,
            r.upcalls@ == Seq::<Upcall>::empty(),
    {
        Process { descriptor, state: ProcessState::Ready, fault_response, upcalls: Vec::new() }
    }

    /// Queues an upcall behind every upcall already waiting: delivery
    /// keeps the order in which upcalls were queued.
    pub fn enqueue_upcall(&mut self, u: Upcall)
        ensures
            final(self).upcalls@ == old(self).upcalls@.push(u),
            final(self).descriptor == old(self).descriptor,
            final(self).state == old(self).state,
            final(self).fault_response == old(self).fault_response,
    {
        self.upcalls.push(u);
    }

    /// Takes the oldest waiting upcall, if any; the rest keep their order.
    pub fn dequeue_upcall(&mut self) -> (r: Option<Upcall>)
        ensures
            final(self).descriptor == old(self).descriptor,
            final(self).state == old(self).state,
            final(self).fault_response == old(self).fault_response,
            (old(self).upcalls@.len() == 0 ==> r is None && final(self).upcalls@ == old(
                self,
            ).upcalls@),
            (old(self).upcalls@.len() > 0 ==> r == Some(old(self).upcalls@[0])
                && final(self).upcalls@ == old(self).upcalls@.subrange(
                1,
                old(self).upcalls@.len() as int,
            )),
    {
        if self.upcalls.len() == 0 {
            None
        } else {
            let u = self.upcalls.remove(0);
            proof {
                assert(self.upcalls@ =~= old(self).upcalls@.subrange(
                    1,
                    old(self).upcalls@.len() as int,
                ));
            }
            Some(u)
        }
    }
}

} // verus!
