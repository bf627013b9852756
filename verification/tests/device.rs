//! The device-creation fallback policy, driven from outside: the factory
//! machine step by step, and the closure-driven creation function.

use std::cell::Cell;

use comptextdemo::d3d::{
    create_d3d_device, device_creation_flags, Device, DeviceFactory, DriverKind,
    CREATE_DEVICE_BGRA_SUPPORT, CREATE_DEVICE_DEBUG, DXGI_ERROR_UNSUPPORTED,
};

#[test]
fn fallback_invoked_exactly_once_on_unsupported() {
    let hardware_attempts = Cell::new(0u32);
    let warp_attempts = Cell::new(0u32);
    let result = create_d3d_device(2, |kind, flags| match kind {
        DriverKind::Hardware => {
            hardware_attempts.set(hardware_attempts.get() + 1);
            Err(DXGI_ERROR_UNSUPPORTED)
        }
        DriverKind::Warp => {
            warp_attempts.set(warp_attempts.get() + 1);
            Ok(Device { driver: DriverKind::Warp, flags })
        }
    });
    assert_eq!(result, Ok(Device { driver: DriverKind::Warp, flags: 2 }));
    assert_eq!(hardware_attempts.get(), 1);
    assert_eq!(warp_attempts.get(), 1);
}

#[test]
fn unrelated_error_returns_without_fallback() {
    let warp_attempts = Cell::new(0u32);
    let result = create_d3d_device(0, |kind, _flags| match kind {
        DriverKind::Hardware => Err(-100),
        DriverKind::Warp => {
            warp_attempts.set(warp_attempts.get() + 1);
            Err(DXGI_ERROR_UNSUPPORTED)
        }
    });
    assert_eq!(result, Err(-100));
    assert_eq!(warp_attempts.get(), 0);
}

#[test]
fn hardware_success_needs_no_fallback() {
    let warp_attempts = Cell::new(0u32);
    let result = create_d3d_device(4, |kind, flags| match kind {
        DriverKind::Hardware => Ok(Device { driver: DriverKind::Hardware, flags }),
        DriverKind::Warp => {
            warp_attempts.set(warp_attempts.get() + 1);
            Ok(Device { driver: DriverKind::Warp, flags })
        }
    });
    assert_eq!(result, Ok(Device { driver: DriverKind::Hardware, flags: 4 }));
    assert_eq!(warp_attempts.get(), 0);
}

#[test]
fn fallback_failure_propagates() {
    let result = create_d3d_device(0, |kind, _flags| match kind {
        DriverKind::Hardware => Err(DXGI_ERROR_UNSUPPORTED),
        DriverKind::Warp => Err(-7),
    });
    assert_eq!(result, Err(-7));
}

#[test]
fn factory_schedules_warp_after_unsupported() {
    let mut factory = DeviceFactory::new(8);
    assert_eq!(factory.next_strategy(), Some(DriverKind::Hardware));
    assert!(factory.is_pending());

    let pending = factory.record(Err(DXGI_ERROR_UNSUPPORTED));
    assert_eq!(pending, None);
    assert_eq!(factory.next_strategy(), Some(DriverKind::Warp));

    let device = Device { driver: DriverKind::Warp, flags: 8 };
    let settled = factory.record(Ok(device));
    assert_eq!(settled, Some(Ok(device)));
    assert_eq!(factory.next_strategy(), None);
    assert!(!factory.is_pending());
    assert_eq!(factory.primary_attempts, 1);
    assert_eq!(factory.fallback_attempts, 1);
}

#[test]
fn creation_flags_follow_the_debug_toggle() {
    assert_eq!(device_creation_flags(false), CREATE_DEVICE_BGRA_SUPPORT);
    assert_eq!(
        device_creation_flags(true),
        CREATE_DEVICE_BGRA_SUPPORT | CREATE_DEVICE_DEBUG
    );
    assert_eq!(device_creation_flags(false), 32);
    assert_eq!(device_creation_flags(true), 34);
}

#[test]
fn factory_settles_at_once_on_other_error() {
    let mut factory = DeviceFactory::new(0);
    let settled = factory.record(Err(1));
    assert_eq!(settled, Some(Err(1)));
    assert_eq!(factory.next_strategy(), None);
    assert_eq!(factory.fallback_attempts, 0);
}
