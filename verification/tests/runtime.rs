use tock_core::dma::{DMAChannel, DMAChannelNum, DMAClient, DMAPeripheral, DMAWidth};
use tock_core::engine::DMAEngine;
use tock_core::kernel::{KernelState, SchedDecision, StopReason, Syscall};
use tock_core::loader::LoadedProcess;
use tock_core::platform::{
    command_or_no_device, CommandResult, Driver, DriverKind, ErrorCode, Platform,
    DRIVER_NUM_GPIO, DRIVER_NUM_IPC,
};
use tock_core::process::{FaultResponse, Process, ProcessState, Upcall};
use tock_core::refcount::ResourceRefcount;
use tock_core::regs::{Access, Field, Register};

#[test]
fn peripheral_lookup_round_trips_the_tag() {
    let p = DMAPeripheral { id: 0 };
    for num in [0u8, 4, 22, 38, 255] {
        assert_eq!(p.lookup(num).id, num);
    }
    assert_eq!(DMAPeripheral { id: 4 }, DMAPeripheral { id: 0 }.lookup(4));
}

#[test]
fn channel_register_bases() {
    assert_eq!(DMAChannelNum::DMAChannel00.index(), 0);
    assert_eq!(DMAChannelNum::DMAChannel15.index(), 15);
    assert_eq!(DMAChannelNum::DMAChannel00.register_base(), 0x400A2000);
    assert_eq!(DMAChannelNum::DMAChannel03.register_base(), 0x400A2000 + 3 * 0x40);
}

#[test]
fn width_unit_sizes() {
    assert_eq!(DMAWidth::Width8Bit.width_bytes(), 1);
    assert_eq!(DMAWidth::Width16Bit.width_bytes(), 2);
    assert_eq!(DMAWidth::Width32Bit.width_bytes(), 4);
    assert_eq!(DMAWidth::Width16Bit.size_mode(), 1);
}

#[test]
fn refcount_acquire_release_sequence() {
    let mut rc = ResourceRefcount::new();
    assert!(!rc.clock_enabled);
    assert!(rc.acquire());
    assert!(rc.clock_enabled);
    assert!(!rc.acquire());
    assert!(rc.clock_enabled);
    assert!(!rc.release());
    assert!(rc.clock_enabled);
    assert!(rc.release());
    assert!(!rc.clock_enabled);
    assert_eq!(rc.count, 0);
}

#[test]
fn refcount_interleavings_end_with_clock_off() {
    // Acquire-acquire-release-release, and other valid interleavings of
    // two holders, all end with no holders and the clock off.
    let runs: [&[bool]; 4] = [
        &[true, true, false, false],
        &[true, false, true, false],
        &[true, true, false, true, false, false],
        &[true, false, true, true, false, false],
    ];
    for ops in runs {
        let mut rc = ResourceRefcount::new();
        for &acquire in ops {
            if acquire {
                rc.acquire();
            } else {
                rc.release();
            }
            assert_eq!(rc.clock_enabled, rc.count > 0);
        }
        assert_eq!(rc.count, 0);
        assert!(!rc.clock_enabled);
    }
}

#[test]
fn prepare_clamps_length_to_buffer() {
    // 16-bit width on a 100-byte buffer: a request for 80 units is clamped
    // to the 50 halfwords the buffer holds.
    let mut rc = ResourceRefcount::new();
    let mut ch = DMAChannel::new(DMAChannelNum::DMAChannel01);
    ch.initialize(DMAWidth::Width16Bit);
    ch.enable(&mut rc);
    ch.prepare_xfer(DMAPeripheral { id: 22 }, vec![0; 100], 80);
    assert_eq!(ch.registers.tcrr, 50);
    assert_eq!(ch.registers.psr, 22);
    assert_eq!(ch.registers.size_mode, 1);
    assert!(ch.registers.interrupts_unmasked);
}

#[test]
fn abort_returns_buffer_and_zeroes_counter() {
    let mut rc = ResourceRefcount::new();
    let mut ch = DMAChannel::new(DMAChannelNum::DMAChannel02);
    ch.initialize(DMAWidth::Width8Bit);
    ch.enable(&mut rc);
    let buf = vec![7u8; 16];
    ch.do_xfer(DMAPeripheral { id: 4 }, buf.clone(), 16);
    assert!(ch.registers.ten);
    let back = ch.abort_xfer().expect("abort yields the in-flight buffer");
    assert_eq!(back, buf);
    assert_eq!(ch.transfer_counter(), 0);
    // The channel accepts a fresh transfer afterwards.
    ch.do_xfer(DMAPeripheral { id: 4 }, vec![9u8; 8], 8);
    assert_eq!(ch.registers.tcrr, 8);
}

#[test]
fn completed_transfer_buffer_reclaimable_exactly_once() {
    let mut rc = ResourceRefcount::new();
    let mut ch = DMAChannel::new(DMAChannelNum::DMAChannel03);
    ch.initialize(DMAWidth::Width8Bit);
    ch.enable(&mut rc);
    let buf = vec![1u8, 2, 3, 4];
    ch.do_xfer(DMAPeripheral { id: 18 }, buf.clone(), 4);
    let pid = ch.handle_interrupt().expect("a client is installed");
    assert_eq!(pid.id, 18);
    let first = ch.abort_xfer();
    assert_eq!(first, Some(buf));
    let second = ch.abort_xfer();
    assert_eq!(second, None);
}

#[test]
fn interrupt_without_client_reports_nothing() {
    let mut ch = DMAChannel::new(DMAChannelNum::DMAChannel04);
    assert!(ch.handle_interrupt().is_none());
}

struct RecordingClient {
    done: Vec<u8>,
}

impl DMAClient for RecordingClient {
    fn xfer_done(&mut self, pid: DMAPeripheral) {
        self.done.push(pid.id);
    }
}

#[test]
fn engine_clock_follows_enabled_channels() {
    let mut eng = DMAEngine::new();
    assert!(!eng.clocks.clock_enabled);
    assert!(eng.enable_channel(0));
    assert!(eng.clocks.clock_enabled);
    assert!(!eng.enable_channel(5));
    assert_eq!(eng.clocks.count, 2);
    // Re-enabling an enabled channel changes nothing.
    assert!(!eng.enable_channel(0));
    assert_eq!(eng.clocks.count, 2);
    let (buf, off_now) = eng.disable_channel(0);
    assert!(buf.is_none());
    assert!(!off_now);
    assert!(eng.clocks.clock_enabled);
    let (_, off_now) = eng.disable_channel(5);
    assert!(off_now);
    assert!(!eng.clocks.clock_enabled);
    assert_eq!(eng.clocks.count, 0);
}

#[test]
fn engine_dispatches_completion_to_client() {
    let mut eng = DMAEngine::new();
    eng.initialize_channel(7, DMAWidth::Width8Bit);
    eng.enable_channel(7);
    eng.do_xfer(7, DMAPeripheral { id: 19 }, vec![0u8; 4], 4);
    let mut client = RecordingClient { done: Vec::new() };
    eng.handle_interrupt(7, &mut client);
    assert_eq!(client.done, vec![19]);
    let back = eng.abort_xfer(7);
    assert_eq!(back, Some(vec![0u8; 4]));
}

#[test]
fn engine_disable_aborts_active_transfer() {
    let mut eng = DMAEngine::new();
    eng.initialize_channel(2, DMAWidth::Width8Bit);
    eng.enable_channel(2);
    eng.do_xfer(2, DMAPeripheral { id: 1 }, vec![3u8; 6], 6);
    let (buf, off_now) = eng.disable_channel(2);
    assert_eq!(buf, Some(vec![3u8; 6]));
    assert!(off_now);
    assert_eq!(eng.transfer_counter(2), 0);
}

#[test]
fn with_driver_resolves_known_and_unknown_ids() {
    let platform = Platform::new();
    assert_eq!(platform.with_driver(DRIVER_NUM_GPIO, |d| d), Some(DriverKind::Gpio));
    assert_eq!(platform.with_driver(DRIVER_NUM_IPC, |d| d), Some(DriverKind::Ipc));
    assert_eq!(platform.with_driver(0xDEAD_BEEF, |d| d), None);
    // The continuation's own result comes back through.
    let seen = platform.with_driver(0xDEAD_BEEF, |d| match d {
        Some(_) => "capability",
        None => "no capability",
    });
    assert_eq!(seen, "no capability");
}

fn dummy_descriptor(offset: usize) -> LoadedProcess {
    LoadedProcess {
        flash_offset: offset,
        total_size: 512,
        header_size: 44,
        init_fn_offset: 0x40,
        protected_size: 0,
        minimum_ram_size: 1024,
        ram_start: 0,
        ram_size: 1024,
    }
}

fn kernel_with(n: usize, fault_response: FaultResponse) -> KernelState {
    let mut procs = Vec::new();
    for i in 0..n {
        procs.push(Process::new(dummy_descriptor(i * 512), fault_response));
    }
    KernelState::new(procs, 2)
}

#[test]
fn bottom_half_work_runs_before_processes() {
    let mut ks = kernel_with(2, FaultResponse::Panic);
    ks.set_pending(1);
    assert_eq!(ks.schedule(), SchedDecision::RunBottomHalf(1));
    assert!(!ks.pending[1]);
    // With the flag cleared, a process runs next.
    assert_eq!(ks.schedule(), SchedDecision::RunProcess(1));
}

#[test]
fn round_robin_resumes_after_last_scheduled() {
    let mut ks = kernel_with(3, FaultResponse::Panic);
    assert_eq!(ks.schedule(), SchedDecision::RunProcess(1));
    assert_eq!(ks.processes[1].state, ProcessState::Running);
    assert!(!ks.report_stop(StopReason::Yielded));
    assert_eq!(ks.processes[1].state, ProcessState::Yielded);
    assert_eq!(ks.schedule(), SchedDecision::RunProcess(2));
    let syscall = Syscall { driver_num: 4, command_num: 1, arg1: 0, arg2: 0 };
    assert!(!ks.report_stop(StopReason::Syscall(syscall)));
    assert_eq!(ks.processes[2].state, ProcessState::Ready);
    assert_eq!(ks.schedule(), SchedDecision::RunProcess(0));
}

#[test]
fn kernel_sleeps_with_nothing_to_do() {
    let mut ks = kernel_with(2, FaultResponse::Panic);
    assert_eq!(ks.schedule(), SchedDecision::RunProcess(1));
    ks.report_stop(StopReason::Yielded);
    assert_eq!(ks.schedule(), SchedDecision::RunProcess(0));
    ks.report_stop(StopReason::Yielded);
    assert_eq!(ks.schedule(), SchedDecision::Sleep);
}

#[test]
fn fault_policy_panic_halts() {
    let mut ks = kernel_with(1, FaultResponse::Panic);
    assert_eq!(ks.schedule(), SchedDecision::RunProcess(0));
    assert!(ks.report_stop(StopReason::Faulted));
    assert_eq!(ks.processes[0].state, ProcessState::Fault);
}

#[test]
fn fault_policy_restart_reinitializes() {
    let mut ks = kernel_with(1, FaultResponse::Restart);
    ks.enqueue_upcall(0, Upcall { fn_ptr: 0x100, userdata: 7 });
    assert_eq!(ks.schedule(), SchedDecision::RunProcess(0));
    assert!(!ks.report_stop(StopReason::Faulted));
    assert_eq!(ks.processes[0].state, ProcessState::Ready);
    // A restart drops the pending upcalls.
    assert_eq!(ks.processes[0].upcalls.len(), 0);
}

#[test]
fn timeslice_expiry_leaves_process_ready() {
    let mut ks = kernel_with(1, FaultResponse::Panic);
    assert_eq!(ks.schedule(), SchedDecision::RunProcess(0));
    assert!(!ks.report_stop(StopReason::TimesliceExpired));
    assert_eq!(ks.processes[0].state, ProcessState::Ready);
}

#[test]
fn upcalls_delivered_in_queued_order_and_wake_yielded() {
    let mut ks = kernel_with(1, FaultResponse::Panic);
    assert_eq!(ks.schedule(), SchedDecision::RunProcess(0));
    ks.report_stop(StopReason::Yielded);
    let a = Upcall { fn_ptr: 0x10, userdata: 1 };
    let b = Upcall { fn_ptr: 0x20, userdata: 2 };
    ks.enqueue_upcall(0, a);
    ks.enqueue_upcall(0, b);
    assert_eq!(ks.deliver_upcall(0), Some(a));
    // Delivery wakes the yielded process.
    assert_eq!(ks.processes[0].state, ProcessState::Ready);
    assert_eq!(ks.deliver_upcall(0), Some(b));
    assert_eq!(ks.deliver_upcall(0), None);
}

#[test]
fn register_fields_read_write_modify() {
    let size = Field { offset: 0, width: 2 };
    let etrig = Field { offset: 2, width: 1 };

    let mut r = Register { value: 0, access: Access::ReadWrite };
    assert!(r.modify(&vec![(size, 2)]));
    assert_eq!(r.value, 2);
    // Modifying a disjoint field preserves the first one.
    assert!(r.modify(&vec![(etrig, 1)]));
    assert_eq!(r.value, 6);
    assert_eq!(r.read(size), Some(2));
    assert_eq!(r.is_set(etrig), Some(true));
    // A composite write zeroes every unnamed bit.
    assert!(r.write(&vec![(etrig, 1)]));
    assert_eq!(r.value, 4);
    assert_eq!(r.read(size), Some(0));
    // Values are truncated to the field's width.
    assert!(r.write(&vec![(size, 0xFF)]));
    assert_eq!(r.value, 3);
}

#[test]
fn register_access_classes_are_enforced() {
    let size = Field { offset: 0, width: 2 };
    let mut ro = Register { value: 7, access: Access::ReadOnly };
    assert!(!ro.write(&vec![(size, 1)]));
    assert!(!ro.modify(&vec![(size, 1)]));
    assert_eq!(ro.value, 7);
    assert_eq!(ro.read(size), Some(3));

    let wo = Register { value: 7, access: Access::WriteOnly };
    assert!(wo.read(size).is_none());
    assert!(wo.is_set(size).is_none());
}

struct CountingDriver {
    commands: u32,
}

impl Driver for CountingDriver {
    fn command(&mut self, command_num: u32, arg1: u32, _arg2: u32, _caller: usize) -> CommandResult {
        self.commands += 1;
        match command_num {
            0 => CommandResult::Success,
            1 => CommandResult::SuccessWithValue(arg1),
            _ => CommandResult::Failure(ErrorCode::InvalidArgument),
        }
    }

    fn subscribe(&mut self, _subscribe_num: u32, _fn_ptr: u32, _userdata: u32, _caller: usize)
        -> CommandResult {
        CommandResult::Success
    }

    fn allow_readonly(&mut self, _allow_num: u32, _buf: &Vec<u8>, _caller: usize) -> CommandResult {
        CommandResult::Success
    }

    fn allow_readwrite(&mut self, _allow_num: u32, _buf: &mut Vec<u8>, _caller: usize)
        -> CommandResult {
        CommandResult::Success
    }
}

#[test]
fn command_dispatch_answers_absence_with_no_device() {
    let mut d = CountingDriver { commands: 0 };
    assert_eq!(command_or_no_device(Some(&mut d), 1, 42, 0, 0), CommandResult::SuccessWithValue(42));
    assert_eq!(d.commands, 1);
    assert_eq!(command_or_no_device(Some(&mut d), 9, 0, 0, 0), CommandResult::Failure(ErrorCode::InvalidArgument));
    let absent: Option<&mut CountingDriver> = None;
    assert_eq!(command_or_no_device(absent, 0, 0, 0, 0), CommandResult::Failure(ErrorCode::NoDevice));
}
