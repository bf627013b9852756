//! The startup sequence end to end: the recovered launch that falls back to
//! the software driver and exits cleanly, and the launch that dies on an
//! unrelated device failure without a fallback attempt.

use comptextdemo::d3d::{Device, DriverKind, DXGI_ERROR_UNSUPPORTED};
use comptextdemo::launch::{interpret_exit_code, Launch, LaunchAction, LaunchEvent};

#[test]
fn fallback_launch_reports_success() {
    let flags = 2;
    let mut launch = Launch::new(flags);
    assert_eq!(launch.outcome(), None);

    let action = launch.advance(LaunchEvent::InitFinished(Ok(())));
    assert_eq!(action, LaunchAction::AttemptDevice(DriverKind::Hardware, flags));

    // The hardware attempt fails with the one recoverable code.
    let action = launch.advance(LaunchEvent::DeviceAttemptFinished(Err(DXGI_ERROR_UNSUPPORTED)));
    assert_eq!(action, LaunchAction::AttemptDevice(DriverKind::Warp, flags));

    // The software attempt succeeds.
    let device = Device { driver: DriverKind::Warp, flags };
    let action = launch.advance(LaunchEvent::DeviceAttemptFinished(Ok(device)));
    assert_eq!(action, LaunchAction::AssembleScene(device));

    let action = launch.advance(LaunchEvent::SceneFinished(Ok(())));
    assert_eq!(action, LaunchAction::PumpMessages);

    // The window closes with exit code 0: the process reports success.
    let action = launch.advance(LaunchEvent::QuitReceived(0));
    assert_eq!(action, LaunchAction::Finish(Ok(())));
    assert_eq!(launch.outcome(), Some(Ok(())));
    assert_eq!(launch.factory.primary_attempts, 1);
    assert_eq!(launch.factory.fallback_attempts, 1);
}

#[test]
fn primary_failure_reports_original_code() {
    let mut launch = Launch::new(0);
    launch.advance(LaunchEvent::InitFinished(Ok(())));

    // An unrelated failure code: no fallback, the code is the outcome.
    let action = launch.advance(LaunchEvent::DeviceAttemptFinished(Err(-50)));
    assert_eq!(action, LaunchAction::Finish(Err(-50)));
    assert_eq!(launch.outcome(), Some(Err(-50)));
    assert_eq!(launch.factory.fallback_attempts, 0);
}

#[test]
fn init_failure_ends_the_launch() {
    let mut launch = Launch::new(0);
    let action = launch.advance(LaunchEvent::InitFinished(Err(-3)));
    assert_eq!(action, LaunchAction::Finish(Err(-3)));
    assert_eq!(launch.outcome(), Some(Err(-3)));
}

#[test]
fn scene_failure_ends_the_launch() {
    let flags = 0;
    let mut launch = Launch::new(flags);
    launch.advance(LaunchEvent::InitFinished(Ok(())));
    let device = Device { driver: DriverKind::Hardware, flags };
    launch.advance(LaunchEvent::DeviceAttemptFinished(Ok(device)));
    let action = launch.advance(LaunchEvent::SceneFinished(Err(-9)));
    assert_eq!(action, LaunchAction::Finish(Err(-9)));
    assert_eq!(launch.outcome(), Some(Err(-9)));
}

#[test]
fn nonzero_quit_code_is_an_error() {
    let flags = 0;
    let mut launch = Launch::new(flags);
    launch.advance(LaunchEvent::InitFinished(Ok(())));
    let device = Device { driver: DriverKind::Hardware, flags };
    launch.advance(LaunchEvent::DeviceAttemptFinished(Ok(device)));
    launch.advance(LaunchEvent::SceneFinished(Ok(())));
    let action = launch.advance(LaunchEvent::QuitReceived(5));
    assert_eq!(action, LaunchAction::Finish(Err(5)));
    assert_eq!(launch.outcome(), Some(Err(5)));
}

#[test]
fn exit_codes_translate_exactly() {
    assert_eq!(interpret_exit_code(0), Ok(()));
    assert_eq!(interpret_exit_code(1), Err(1));
    assert_eq!(interpret_exit_code(-2005270524), Err(-2005270524));
}
