//! The startup sequence, as the decisions it makes: initialize the runtime,
//! create the rendering device through the two-attempt factory, assemble the
//! scene, pump messages, and interpret the message loop's exit code.
//!
//! The sequence has no partial-success state.  Every fallible step either
//! succeeds, moving the program one phase forward, or fails with a code that
//! is surfaced unchanged as the program's outcome — with the single
//! exception of the recoverable device-creation failure, which the embedded
//! [`DeviceFactory`](crate::d3d::DeviceFactory) answers with one software
//! attempt.  The caller performs the platform work each action asks for and
//! reports the outcome as the next event.

use vstd::prelude::*;

use crate::d3d::{factory_start, factory_step, strategy_of, Device, DeviceFactory, DriverKind};

verus! {

/// Where the program stands in its startup sequence.
#[derive(Clone, Copy, PartialEq, Eq, Structural, Debug)]
pub enum LaunchPhase {
    /// Runtime initialization: the platform runtime, the dispatcher queue,
    /// the compositor with its root visual, and the window.
    Initializing,
    /// The device factory is running its two-attempt schedule.
    CreatingDevice,
    /// Sequential construction of the scene on the created device: factory,
    /// drawing surface, text, brushes, animation.
    AssemblingScene,
    /// The message loop is running.
    Pumping,
    /// The program is done; the outcome is settled.
    Finished,
}

/// The outcome of one platform step, reported back to the machine.
#[derive(Clone, Copy, PartialEq, Eq, Debug)]
pub enum LaunchEvent {
    /// Runtime initialization finished, successfully or with a code.
    InitFinished(Result<(), i32>),
    /// One device-creation attempt finished.
    DeviceAttemptFinished(Result<Device, i32>),
    /// Scene assembly finished, successfully or with a code.
    SceneFinished(Result<(), i32>),
    /// The message loop ended; the final message carried this exit code.
    QuitReceived(i32),
}

/// The platform work the machine asks for next.
#[derive(Clone, Copy, PartialEq, Eq, Debug)]
pub enum LaunchAction {
    /// Attempt device creation with this driver strategy and these flags.
    AttemptDevice(DriverKind, u32),
    /// Build the scene on this device.
    AssembleScene(Device),
    /// Run the message loop.
    PumpMessages,
    /// Shut down and report this outcome as the process result.
    Finish(Result<(), i32>),
}

/// The startup sequence as a state machine.  [`Launch::new`] starts in
/// [`LaunchPhase::Initializing`], with runtime initialization as the implied
/// first piece of platform work; each reported event yields the next action.
pub struct Launch {
    pub phase: LaunchPhase,
    /// Device-creation flags, fixed at launch (the debug-vs-release toggle).
    pub flags: u32,
    /// The embedded two-attempt device factory.
    pub factory: DeviceFactory,
    /// The created device, once scene assembly has begun.
    pub device: Option<Device>,
    /// The settled outcome, once the phase is `Finished`.
    pub outcome: Option<Result<(), i32>>,
}

/// The process outcome an exit code from the message loop is turned into: a
/// non-zero code is surfaced as an error, zero as success.
pub open spec fn exit_outcome(code: i32) -> Result<(), i32> {
    if code == 0 {
        Ok(())
    } else {
        Err(code)
    }
}

/// The launch state before any platform work has been reported.
pub open spec fn launch_start(flags: u32) -> Launch {
    Launch {
        phase: LaunchPhase::Initializing,
        flags,
        factory: factory_start(flags),
        device: None,
        outcome: None,
    }
}

/// Whether an event is the answer to the platform work the current phase is
/// waiting for.
pub open spec fn event_fits(s: Launch, ev: LaunchEvent) -> bool {
    match ev {
        LaunchEvent::InitFinished(_) => s.phase is Initializing,
        LaunchEvent::DeviceAttemptFinished(_) => s.phase is CreatingDevice,
        LaunchEvent::SceneFinished(_) => s.phase is AssemblingScene,
        LaunchEvent::QuitReceived(_) => s.phase is Pumping,
    }
}

/// A finished launch state with the given outcome.
pub open spec fn launch_finished(s: Launch, result: Result<(), i32>) -> Launch {
    Launch {
        phase: LaunchPhase::Finished,
        flags: s.flags,
        factory: s.factory,
        device: s.device,
        outcome: Some(result),
    }
}

/// The machine's transition on one reported event: the successor state and
/// the next action.  Every failure code is surfaced unchanged in a
/// [`LaunchAction::Finish`], except the one recoverable device-creation
/// failure, which the factory answers by scheduling the software attempt.
pub open spec fn launch_step(s: Launch, ev: LaunchEvent) -> (Launch, LaunchAction) {
    match ev {
        LaunchEvent::InitFinished(out) => match out {
            Ok(_) => (
                Launch { phase: LaunchPhase::CreatingDevice, ..s },
                LaunchAction::AttemptDevice(DriverKind::Hardware, s.flags),
            ),
            Err(code) => (launch_finished(s, Err(code)), LaunchAction::Finish(Err(code))),
        },
        LaunchEvent::DeviceAttemptFinished(out) => {
            let (factory, decision) = factory_step(s.factory, out);
            let stepped = Launch { factory, ..s };
            match decision {
                None => (stepped, LaunchAction::AttemptDevice(DriverKind::Warp, s.flags)),
                Some(Ok(d)) => (
                    Launch { phase: LaunchPhase::AssemblingScene, device: Some(d), ..stepped },
                    LaunchAction::AssembleScene(d),
                ),
                Some(Err(code)) => (
                    launch_finished(stepped, Err(code)),
                    LaunchAction::Finish(Err(code)),
                ),
            }
        },
        LaunchEvent::SceneFinished(out) => match out {
            Ok(_) => (Launch { phase: LaunchPhase::Pumping, ..s }, LaunchAction::PumpMessages),
            Err(code) => (launch_finished(s, Err(code)), LaunchAction::Finish(Err(code))),
        },
        LaunchEvent::QuitReceived(code) => (
            launch_finished(s, exit_outcome(code)),
            LaunchAction::Finish(exit_outcome(code)),
        ),
    }
}

impl Launch {
    /// Validity of a launch state: the factory is valid and each phase holds
    /// what it relies on — the factory still pending while the device is
    /// being created, a device at hand from scene assembly on, and a settled
    /// outcome exactly when finished.
    pub open spec fn wf(self) -> bool {
        &&& self.factory.wf()
        &&& self.factory.flags == self.flags
        &&& (self.phase is Initializing ==> self.factory == factory_start(self.flags))
        &&& (self.phase is CreatingDevice ==> !(self.factory.phase is Complete))
        &&& (self.phase is AssemblingScene || self.phase is Pumping ==> self.device is Some)
        &&& (self.outcome is Some <==> self.phase is Finished)
    }

    /// A fresh launch with the given device-creation flags.  The implied
    /// first piece of platform work is runtime initialization, whose outcome
    /// is reported as [`LaunchEvent::InitFinished`].
    pub fn new(flags: u32) -> (l: Launch)
        ensures
            l == launch_start(flags),
            l.wf(),
    {
        Launch {
            phase: LaunchPhase::Initializing,
            flags,
            factory: DeviceFactory::new(flags),
            device: None,
            outcome: None,
        }
    }

    /// The settled outcome, once the machine is finished.
    pub fn outcome(&self) -> (r: Option<Result<(), i32>>)
        ensures
            r == self.outcome,
    {
        self.outcome
    }

    /// Report the outcome of the platform work the machine was waiting for,
    /// and receive the next action.
    pub fn advance(&mut self, ev: LaunchEvent) -> (a: LaunchAction)
        requires
            old(self).wf(),
            !(old(self).phase is Finished),
            event_fits(*old(self), ev),
        ensures
            final(self).wf(),
            (*final(self), a) == launch_step(*old(self), ev),
            final(self).flags == old(self).flags,
            // No error is swallowed: a failed step ends the launch with that
            // step's own code — except the one recoverable device failure.
            ev matches LaunchEvent::InitFinished(Err(code)) ==> a == LaunchAction::Finish(
                Err::<(), i32>(code),
            ) && final(self).outcome == Some(Err::<(), i32>(code)),
            ev matches LaunchEvent::SceneFinished(Err(code)) ==> a == LaunchAction::Finish(
                Err::<(), i32>(code),
            ) && final(self).outcome == Some(Err::<(), i32>(code)),
            // A quit message settles the outcome by its exit code: zero is
            // success, anything else the error it is.
            ev matches LaunchEvent::QuitReceived(code) ==> a == LaunchAction::Finish(
                exit_outcome(code),
            ) && final(self).outcome == Some(exit_outcome(code)),
    {
        match ev {
            LaunchEvent::InitFinished(out) => match out {
                Ok(_) => {
                    self.phase = LaunchPhase::CreatingDevice;
                    LaunchAction::AttemptDevice(DriverKind::Hardware, self.flags)
                },
                Err(code) => {
                    self.phase = LaunchPhase::Finished;
                    self.outcome = Some(Err(code));
                    LaunchAction::Finish(Err(code))
                },
            },
            LaunchEvent::DeviceAttemptFinished(out) => {
                let decision = self.factory.record(out);
                match decision {
                    None => LaunchAction::AttemptDevice(DriverKind::Warp, self.flags),
                    Some(Ok(d)) => {
                        self.phase = LaunchPhase::AssemblingScene;
                        self.device = Some(d);
                        LaunchAction::AssembleScene(d)
                    },
                    Some(Err(code)) => {
                        self.phase = LaunchPhase::Finished;
                        self.outcome = Some(Err(code));
                        LaunchAction::Finish(Err(code))
                    },
                }
            },
            LaunchEvent::SceneFinished(out) => match out {
                Ok(_) => {
                    self.phase = LaunchPhase::Pumping;
                    LaunchAction::PumpMessages
                },
                Err(code) => {
                    self.phase = LaunchPhase::Finished;
                    self.outcome = Some(Err(code));
                    LaunchAction::Finish(Err(code))
                },
            },
            LaunchEvent::QuitReceived(code) => {
                let result = interpret_exit_code(code);
                self.phase = LaunchPhase::Finished;
                self.outcome = Some(result);
                LaunchAction::Finish(result)
            },
        }
    }
}

/// Turn the exit code the message loop ended with into the process outcome:
/// zero is success, and a non-zero code is surfaced as an error carrying
/// exactly that code.
pub fn interpret_exit_code(code: i32) -> (r: Result<(), i32>)
    ensures
        r == exit_outcome(code),
        r is Ok <==> code == 0,
        r matches Err(c) ==> c == code,
{
    if code != 0 {
        Err(code)
    } else {
        Ok(())
    }
}

/// Law (failure passes through): from a fresh launch that initialized
/// successfully, a primary device attempt failing with any non-recoverable
/// code ends the launch with exactly that code, with no software attempt
/// made and none requested.
pub proof fn lemma_primary_error_is_final(flags: u32, code: i32)
    requires
        !crate::d3d::triggers_fallback(code),
    ensures
        ({
            let (ready, _) = launch_step(launch_start(flags), LaunchEvent::InitFinished(Ok(())));
            let (done, act) = launch_step(
                ready,
                LaunchEvent::DeviceAttemptFinished(Err(code)),
            );
            &&& act == LaunchAction::Finish(Err::<(), i32>(code))
            &&& done.outcome == Some(Err::<(), i32>(code))
            &&& done.factory.fallback_attempts == 0
            &&& strategy_of(done.factory) is None
        }),
{
}

/// Law (recovered launch succeeds): from a fresh launch, a run in which the
/// primary device attempt fails with the one recoverable code, the software
/// attempt returns any device, scene assembly succeeds, and the message loop
/// ends with exit code zero, finishes successfully — after exactly one
/// software attempt.
pub proof fn lemma_fallback_launch_succeeds(flags: u32, d: Device)
    ensures
        ({
            let (ready, _) = launch_step(launch_start(flags), LaunchEvent::InitFinished(Ok(())));
            let (retrying, retry_act) = launch_step(
                ready,
                LaunchEvent::DeviceAttemptFinished(Err(crate::d3d::DXGI_ERROR_UNSUPPORTED)),
            );
            let (assembling, _) = launch_step(
                retrying,
                LaunchEvent::DeviceAttemptFinished(Ok(d)),
            );
            let (pumping, _) = launch_step(assembling, LaunchEvent::SceneFinished(Ok(())));
            let (done, act) = launch_step(pumping, LaunchEvent::QuitReceived(0));
            &&& retry_act == LaunchAction::AttemptDevice(DriverKind::Warp, flags)
            &&& assembling.device == Some(d)
            &&& done.factory.primary_attempts == 1
            &&& done.factory.fallback_attempts == 1
            &&& act == LaunchAction::Finish(Ok::<(), i32>(()))
            &&& done.outcome == Some(Ok::<(), i32>(()))
        }),
{
}

} // verus!
