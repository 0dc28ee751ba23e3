//! The platform's capsule registry and system-call dispatch: a fixed,
//! statically known set of kernel-resident drivers, each reachable through
//! a globally assigned driver id, and the three-valued result a command
//! returns to the calling process.

use vstd::prelude::*;

verus! {

/// Driver id of the alarm capsule.
pub const DRIVER_NUM_ALARM: usize = 0;

/// Driver id of the console capsule.
pub const DRIVER_NUM_CONSOLE: usize = 1;

/// Driver id of the LED capsule.
pub const DRIVER_NUM_LED: usize = 2;

/// Driver id of the button capsule.
pub const DRIVER_NUM_BUTTON: usize = 3;

/// Driver id of the GPIO capsule.
pub const DRIVER_NUM_GPIO: usize = 4;

/// Driver id of the IPC mechanism.
pub const DRIVER_NUM_IPC: usize = 0xff;

/// Driver id of the BLE advertising capsule.
pub const DRIVER_NUM_BLE: usize = 0x30000;

/// Driver id of the random-number capsule.
pub const DRIVER_NUM_RNG: usize = 0x40001;

/// Driver id of the temperature-sensor capsule.
pub const DRIVER_NUM_TEMPERATURE: usize = 0x60000;

/// The capsules this platform wires up, one per driver id.
#[derive(Copy, Clone, PartialEq, Eq, Structural, Debug)]
pub enum DriverKind {
    Alarm,
    Console,
    Led,
    Button,
    Gpio,
    Ipc,
    BleRadio,
    Rng,
    Temperature,
}

/// The failure kinds a capsule may return to a process.
#[derive(Copy, Clone, PartialEq, Eq, Structural, Debug)]
pub enum ErrorCode {
    /// No capsule serves the requested driver id.
    NoDevice,
    /// The request itself is malformed: a zero-length transfer, a width
    /// mismatch, an unknown command number.
    InvalidArgument,
    /// The resource is already in use: a second transfer on an active
    /// channel.
    Busy,
}

/// The three-valued result of a system call. Capsules surface errors only
/// through this; they never panic.
#[derive(Copy, Clone, PartialEq, Eq, Structural, Debug)]
pub enum CommandResult {
    Success,
    SuccessWithValue(u32),
    Failure(ErrorCode),
}

/// The driver capability set a capsule offers to processes: commands, an
/// upcall subscription, and read-only or read-write buffer sharing. The
/// kernel invokes these on behalf of the calling process; implementations
/// live with the capsules.
pub trait Driver {
    /// Executes `command_num` with two arguments for the calling process.
    fn command(&mut self, command_num: u32, arg1: u32, arg2: u32, caller: usize) -> CommandResult;

    /// Registers an upcall (function pointer and user data) the capsule
    /// may later schedule for the calling process.
    fn subscribe(&mut self, subscribe_num: u32, fn_ptr: u32, userdata: u32, caller: usize)
        -> CommandResult;

    /// Grants the capsule read-only access to a process buffer for the
    /// duration of the call.
    fn allow_readonly(&mut self, allow_num: u32, buf: &Vec<u8>, caller: usize) -> CommandResult;

    /// Grants the capsule read-write access to a process buffer for the
    /// duration of the call.
    fn allow_readwrite(&mut self, allow_num: u32, buf: &mut Vec<u8>, caller: usize)
        -> CommandResult;
}

/// Invokes a command on the resolved capsule on behalf of a process, or
/// returns the no-device failure where no capsule serves the driver id.
/// What a present capsule returns is its own; absence is answered here.
pub fn command_or_no_device<D: Driver>(
    driver: Option<&mut D>,
    command_num: u32,
    arg1: u32,
    arg2: u32,
    caller: usize,
) -> (r: CommandResult)
    ensures
        (driver is None ==> r == CommandResult::Failure(ErrorCode::NoDevice)),
{
    match driver {
        Some(d) => d.command(command_num, arg1, arg2, caller),
        None => CommandResult::Failure(ErrorCode::NoDevice),
    }
}

/// The capsule registered for a driver id on this platform, if any.
pub open spec fn spec_driver_for(driver_num: usize) -> Option<DriverKind> {
    if driver_num == DRIVER_NUM_ALARM {
        Some(DriverKind::Alarm)
    } else if driver_num == DRIVER_NUM_CONSOLE {
        Some(DriverKind::Console)
    } else if driver_num == DRIVER_NUM_LED {
        Some(DriverKind::Led)
    } else if driver_num == DRIVER_NUM_BUTTON {
        Some(DriverKind::Button)
    } else if driver_num == DRIVER_NUM_GPIO {
        Some(DriverKind::Gpio)
    } else if driver_num == DRIVER_NUM_IPC {
        Some(DriverKind::Ipc)
    } else if driver_num == DRIVER_NUM_BLE {
        Some(DriverKind::BleRadio)
    } else if driver_num == DRIVER_NUM_RNG {
        Some(DriverKind::Rng)
    } else if driver_num == DRIVER_NUM_TEMPERATURE {
        Some(DriverKind::Temperature)
    } else {
        None
    }
}

/// The platform: the fixed capsule set wired up at boot. Which capsule
/// serves which driver id is decided statically, so the registry carries
/// no state of its own.
pub struct Platform {
}

impl Platform {
    /// A platform with its capsule set wired up.
    pub fn new() -> (r: Platform) {
        Platform {  }
    }

    /// The capsule registered for `driver_num`, if any.
    pub fn driver_for(&self, driver_num: usize) -> (r: Option<DriverKind>)
        ensures
            r == spec_driver_for(driver_num),
    {
        if driver_num == DRIVER_NUM_ALARM {
            Some(DriverKind::Alarm)
        } else if driver_num == DRIVER_NUM_CONSOLE {
            Some(DriverKind::Console)
        } else if driver_num == DRIVER_NUM_LED {
            Some(DriverKind::Led)
        } else if driver_num == DRIVER_NUM_BUTTON {
            Some(DriverKind::Button)
        } else if driver_num == DRIVER_NUM_GPIO {
            Some(DriverKind::Gpio)
        } else if driver_num == DRIVER_NUM_IPC {
            Some(DriverKind::Ipc)
        } else if driver_num == DRIVER_NUM_BLE {
            Some(DriverKind::BleRadio)
        } else if driver_num == DRIVER_NUM_RNG {
            Some(DriverKind::Rng)
        } else if driver_num == DRIVER_NUM_TEMPERATURE {
            Some(DriverKind::Temperature)
        } else {
            None
        }
    }

    /// Resolves `driver_num` and invokes the continuation with the capsule
    /// that serves it, or with nothing when no capsule does.
    pub fn with_driver<F, R>(&self, driver_num: usize, f: F) -> (r: R) where
        F: FnOnce(Option<DriverKind>) -> R,

        requires
            call_requires(f, (spec_driver_for(driver_num),)),
        ensures
            call_ensures(f, (spec_driver_for(driver_num),), r),
    {
        let d = self.driver_for(driver_num);
        f(d)
    }
}

} // verus!
