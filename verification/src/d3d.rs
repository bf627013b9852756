//! Device-creation policy: try the hardware driver first, and fall back to
//! the software (WARP) driver at most once, on one specific failure code.
//!
//! The policy is deliberately not a general retry loop.  Only a failure that
//! reports "this driver type is unsupported here" is worth a second attempt;
//! every other code means the environment itself is broken (missing platform
//! support, invalid flags) and is surfaced to the caller unchanged.

use vstd::prelude::*;

verus! {

/// The one failure code that makes the hardware attempt recoverable: the
/// DXGI "unsupported" result, whose bit pattern 0x887A_0004 reads as this
/// value in a signed 32-bit code.
pub const DXGI_ERROR_UNSUPPORTED: i32 = -2005270524;

/// Whether a failed primary attempt is worth retrying with the software
/// driver.  Exactly one code qualifies.
pub open spec fn triggers_fallback(code: i32) -> bool {
    code == DXGI_ERROR_UNSUPPORTED
}

/// The creation flag that asks the device for BGRA surface support; the
/// compositor's drawing surfaces need it, so it is always set.
pub const CREATE_DEVICE_BGRA_SUPPORT: u32 = 32;

/// The creation flag that enables the device's debug layer.
pub const CREATE_DEVICE_DEBUG: u32 = 2;

/// The device-creation flags for a configuration: BGRA support always, and
/// the debug layer exactly when diagnostic instrumentation is wanted.
pub fn device_creation_flags(debug: bool) -> (r: u32)
    ensures
        r == CREATE_DEVICE_BGRA_SUPPORT + if debug {
            CREATE_DEVICE_DEBUG as int
        } else {
            0int
        },
{
    let flags: u32 = if debug {
        proof {
            assert(32u32 | 2u32 == 34u32) by (bit_vector);
        }
        CREATE_DEVICE_BGRA_SUPPORT | CREATE_DEVICE_DEBUG
    } else {
        CREATE_DEVICE_BGRA_SUPPORT
    };
    flags
}

/// The two driver strategies the factory knows: a hardware-backed driver and
/// the software (WARP) emulator.
#[derive(Clone, Copy, PartialEq, Eq, Structural, Debug)]
pub enum DriverKind {
    Hardware,
    Warp,
}

/// A successfully created rendering device, reduced to what the program's
/// decisions can read of it: which driver strategy produced it and the
/// creation flags it was given.
#[derive(Clone, Copy, PartialEq, Eq, Structural, Debug)]
pub struct Device {
    pub driver: DriverKind,
    pub flags: u32,
}

/// Where the factory stands in its two-attempt schedule.
#[derive(Clone, Copy, PartialEq, Eq, Structural, Debug)]
pub enum FactoryPhase {
    /// No attempt made yet; the hardware driver is up next.
    AwaitingPrimary,
    /// The hardware attempt failed with the one recoverable code; the
    /// software driver is up next.
    AwaitingFallback,
    /// A result has been returned; the factory asks for nothing further.
    Complete,
}

/// The device factory as an explicit state machine.  The caller performs the
/// attempts (they are platform calls) and reports each outcome with
/// [`DeviceFactory::record`]; the factory decides whether a further attempt
/// is wanted and which result the caller receives.
///
/// The attempt counters make the policy auditable: a completed factory has
/// made exactly one primary attempt, and a fallback attempt exactly when the
/// primary failed with [`DXGI_ERROR_UNSUPPORTED`].
#[derive(Clone, Copy, PartialEq, Eq, Structural, Debug)]
pub struct DeviceFactory {
    /// Creation flags every attempt is made with.
    pub flags: u32,
    pub phase: FactoryPhase,
    /// How many hardware attempts have been reported.
    pub primary_attempts: u64,
    /// How many software attempts have been reported.
    pub fallback_attempts: u64,
}

/// The factory state before any attempt has been reported.
pub open spec fn factory_start(flags: u32) -> DeviceFactory {
    DeviceFactory {
        flags,
        phase: FactoryPhase::AwaitingPrimary,
        primary_attempts: 0,
        fallback_attempts: 0,
    }
}

/// Which driver the factory wants attempted next, if any.
pub open spec fn strategy_of(f: DeviceFactory) -> Option<DriverKind> {
    match f.phase {
        FactoryPhase::AwaitingPrimary => Some(DriverKind::Hardware),
        FactoryPhase::AwaitingFallback => Some(DriverKind::Warp),
        FactoryPhase::Complete => None,
    }
}

/// The factory's transition on one reported attempt outcome: the successor
/// state, and `Some(result)` once the factory has settled on a result.
///
/// From `AwaitingPrimary`: a success or a non-recoverable failure is final;
/// the one recoverable failure code schedules the software attempt instead.
/// From `AwaitingFallback`: whatever the software attempt returned is final.
pub open spec fn factory_step(
    f: DeviceFactory,
    outcome: Result<Device, i32>,
) -> (DeviceFactory, Option<Result<Device, i32>>) {
    match f.phase {
        FactoryPhase::AwaitingPrimary => {
            let next_phase = match outcome {
                Ok(_) => FactoryPhase::Complete,
                Err(code) => if triggers_fallback(code) {
                    FactoryPhase::AwaitingFallback
                } else {
                    FactoryPhase::Complete
                },
            };
            let stepped = DeviceFactory {
                flags: f.flags,
                phase: next_phase,
                primary_attempts: (f.primary_attempts + 1) as u64,
                fallback_attempts: f.fallback_attempts,
            };
            let decision = match outcome {
                Ok(_) => Some(outcome),
                Err(code) => if triggers_fallback(code) {
                    None
                } else {
                    Some(outcome)
                },
            };
            (stepped, decision)
        },
        FactoryPhase::AwaitingFallback => {
            let stepped = DeviceFactory {
                flags: f.flags,
                phase: FactoryPhase::Complete,
                primary_attempts: f.primary_attempts,
                fallback_attempts: (f.fallback_attempts + 1) as u64,
            };
            (stepped, Some(outcome))
        },
        FactoryPhase::Complete => (f, None),
    }
}

impl DeviceFactory {
    /// Validity of a factory state: attempts never exceed the two-attempt
    /// schedule, and the phase agrees with the counters.
    pub open spec fn wf(self) -> bool {
        &&& self.primary_attempts <= 1
        &&& self.fallback_attempts <= 1
        &&& (self.phase is AwaitingPrimary ==> self.primary_attempts == 0
            && self.fallback_attempts == 0)
        &&& (self.phase is AwaitingFallback ==> self.primary_attempts == 1
            && self.fallback_attempts == 0)
    }

    /// A fresh factory, ready for the hardware attempt.
    pub fn new(flags: u32) -> (f: DeviceFactory)
        ensures
            f == factory_start(flags),
            f.wf(),
    {
        DeviceFactory {
            flags,
            phase: FactoryPhase::AwaitingPrimary,
            primary_attempts: 0,
            fallback_attempts: 0,
        }
    }

    /// Which driver the caller should attempt next, with the factory's
    /// flags; `None` once the factory is complete.
    pub fn next_strategy(&self) -> (r: Option<DriverKind>)
        ensures
            r == strategy_of(*self),
    {
        match self.phase {
            FactoryPhase::AwaitingPrimary => Some(DriverKind::Hardware),
            FactoryPhase::AwaitingFallback => Some(DriverKind::Warp),
            FactoryPhase::Complete => None,
        }
    }

    /// Whether the factory still wants an attempt reported.
    pub fn is_pending(&self) -> (r: bool)
        ensures
            r == !(self.phase is Complete),
    {
        !matches!(self.phase, FactoryPhase::Complete)
    }

    /// Report the outcome of the attempt the factory asked for.  Returns
    /// `Some(result)` once the factory has settled on the result the caller
    /// must return: the primary outcome, unless the primary failed with the
    /// one recoverable code, in which case the fallback outcome.
    pub fn record(&mut self, outcome: Result<Device, i32>) -> (r: Option<Result<Device, i32>>)
        requires
            old(self).wf(),
            !(old(self).phase is Complete),
        ensures
            final(self).wf(),
            (*final(self), r) == factory_step(*old(self), outcome),
            final(self).flags == old(self).flags,
            // A success is final, whichever attempt produced it.
            outcome is Ok ==> r == Some(outcome) && final(self).phase is Complete,
            // The one recoverable failure of the primary schedules the
            // fallback; nothing is returned yet.
            (outcome matches Err(code) && old(self).phase is AwaitingPrimary
                && triggers_fallback(code)) ==> r is None
                && final(self).phase is AwaitingFallback
                && final(self).fallback_attempts == 0,
            // Any other failure of the primary is final and unchanged, and
            // the fallback is never attempted.
            (outcome matches Err(code) && old(self).phase is AwaitingPrimary
                && !triggers_fallback(code)) ==> r == Some(outcome)
                && final(self).phase is Complete
                && final(self).fallback_attempts == 0,
            // The fallback outcome is final, success or not, and was the
            // one and only fallback attempt.
            old(self).phase is AwaitingFallback ==> r == Some(outcome)
                && final(self).phase is Complete
                && final(self).fallback_attempts == 1,
    {
        match self.phase {
            FactoryPhase::AwaitingPrimary => {
                self.primary_attempts = self.primary_attempts + 1;
                match &outcome {
                    Ok(_) => {
                        self.phase = FactoryPhase::Complete;
                        Some(outcome)
                    },
                    Err(code) => {
                        if *code == DXGI_ERROR_UNSUPPORTED {
                            self.phase = FactoryPhase::AwaitingFallback;
                            None
                        } else {
                            self.phase = FactoryPhase::Complete;
                            Some(outcome)
                        }
                    },
                }
            },
            FactoryPhase::AwaitingFallback => {
                self.fallback_attempts = self.fallback_attempts + 1;
                self.phase = FactoryPhase::Complete;
                Some(outcome)
            },
            FactoryPhase::Complete => None,
        }
    }
}

/// Law (device-creation fallback): from a fresh factory, a primary failure
/// with the one recoverable code leads to exactly one fallback attempt whose
/// outcome — success or failure — is returned as is; a primary failure with
/// any other code is returned at once and the fallback is never attempted.
pub proof fn lemma_fallback_exactly_once(flags: u32, code: i32, fallback: Result<Device, i32>)
    ensures
        triggers_fallback(code) ==> ({
            let (mid, early) = factory_step(factory_start(flags), Err(code));
            let (done, settled) = factory_step(mid, fallback);
            &&& early is None
            &&& strategy_of(mid) == Some(DriverKind::Warp)
            &&& settled == Some(fallback)
            &&& done.phase is Complete
            &&& done.primary_attempts == 1
            &&& done.fallback_attempts == 1
        }),
        !triggers_fallback(code) ==> ({
            let (done, settled) = factory_step(factory_start(flags), Err(code));
            &&& settled == Some(Err::<Device, i32>(code))
            &&& done.phase is Complete
            &&& done.primary_attempts == 1
            &&& done.fallback_attempts == 0
            &&& strategy_of(done) is None
        }),
{
}

/// Create a device with the two-attempt policy, `attempt` standing for the
/// platform's device-creation call on one driver strategy.  The hardware
/// driver is attempted first; on a failure with the one recoverable code the
/// software driver is attempted once, and its result — success or failure —
/// is returned as is; any other hardware failure is returned unchanged and
/// the software driver is never attempted.
pub fn create_d3d_device<F: Fn(DriverKind, u32) -> Result<Device, i32>>(
    flags: u32,
    attempt: F,
) -> (r: Result<Device, i32>)
    requires
        forall|k: DriverKind| #[trigger] call_requires(attempt, (k, flags)),
    ensures
        exists|first: Result<Device, i32>|
            {
                &&& #[trigger] call_ensures(attempt, (DriverKind::Hardware, flags), first)
                &&& (match first {
                    Ok(_) => r == first,
                    Err(code) => !triggers_fallback(code) ==> r == first,
                })
                &&& ((first matches Err(code) && triggers_fallback(code)) ==> exists|
                    second: Result<Device, i32>,
                |
                    {
                        &&& #[trigger] call_ensures(attempt, (DriverKind::Warp, flags), second)
                        &&& r == second
                    })
            },
{
    let mut factory = DeviceFactory::new(flags);
    let first = attempt(DriverKind::Hardware, flags);
    match factory.record(first) {
        Some(result) => result,
        None => {
            let second = attempt(DriverKind::Warp, flags);
            let settled = factory.record(second);
            settled.unwrap()
        },
    }
}

} // verus!
