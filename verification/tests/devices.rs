//! Device queries: interface device state and capture device lookup.

use cidre::av::capture::{CaptureHw, Device as CaptureDevice, DeviceType, Position};
use cidre::av::MediaType;
use cidre::ui::{BatteryState, Device, Orientation, UserInterfaceIdiom};

#[test]
fn orientation_predicates() {
    assert!(Orientation::Portrait.is_portrait());
    assert!(Orientation::PortraitUpsideDown.is_portrait());
    assert!(!Orientation::LandscapeLeft.is_portrait());

    assert!(Orientation::LandscapeLeft.is_landscape());
    assert!(Orientation::LandscapeRight.is_landscape());
    assert!(!Orientation::FaceUp.is_landscape());

    assert!(Orientation::FaceUp.is_flat());
    assert!(Orientation::FaceDown.is_flat());
    assert!(!Orientation::Unknown.is_flat());
    assert!(!Orientation::Unknown.is_portrait());
}

#[test]
fn battery_state_needs_monitoring() {
    let mut device = Device::current();
    assert_eq!(device.user_interface_idiom(), UserInterfaceIdiom::Phone);
    assert!(device.is_multitasking_supported());

    assert!(!device.is_battery_monitoring_enabled());
    assert_eq!(device.battery_state(), BatteryState::Unknown);

    device.set_battery_monitoring_enabled(true);
    assert!(device.is_battery_monitoring_enabled());
    assert_eq!(device.battery_state(), BatteryState::Full);

    device.set_battery_monitoring_enabled(false);
    assert_eq!(device.battery_state(), BatteryState::Unknown);
}

#[test]
fn proximity_and_orientation_need_their_switches() {
    let mut device = Device::current();
    assert!(!device.is_proximity_monitoring_enabled());
    assert!(!device.proximity_state());
    device.set_proximity_monitoring_enabled(true);
    assert!(device.is_proximity_monitoring_enabled());
    // Nothing is near the modeled sensor.
    assert!(!device.proximity_state());

    assert_eq!(device.orientation(), Orientation::Unknown);
    device.begin_generating_device_orientation_notifications();
    assert_eq!(device.orientation(), Orientation::FaceUp);

    assert!(device.id_for_vendor().is_none());
    assert_eq!(device.model(), "iPhone");
    assert_eq!(device.system_name(), "iOS");
    assert_eq!(device.name(), "iPhone");
    assert_eq!(device.system_version(), "17.0");
}

#[test]
fn capture_lookup_returns_the_first_match() {
    let mut hw = CaptureHw::new();
    hw.add_device(CaptureDevice {
        id: 1,
        device_type: DeviceType::BuiltInMicrophone,
        media: MediaType::Audio,
        position: Position::Unspecified,
    });
    hw.add_device(CaptureDevice {
        id: 2,
        device_type: DeviceType::BuiltInWideAngleCamera,
        media: MediaType::Video,
        position: Position::Front,
    });
    hw.add_device(CaptureDevice {
        id: 3,
        device_type: DeviceType::BuiltInWideAngleCamera,
        media: MediaType::Video,
        position: Position::Front,
    });

    let found = CaptureDevice::with_device_type_media_and_position(
        DeviceType::BuiltInWideAngleCamera,
        Some(MediaType::Video),
        Position::Front,
        &hw,
    );
    assert_eq!(found.map(|d| d.id), Some(2));

    // An unspecified position matches any registered device of the kind.
    let found = CaptureDevice::with_device_type_media_and_position(
        DeviceType::BuiltInWideAngleCamera,
        Some(MediaType::Video),
        Position::Unspecified,
        &hw,
    );
    assert_eq!(found.map(|d| d.id), Some(2));

    let missing = CaptureDevice::with_device_type_media_and_position(
        DeviceType::BuiltInTelephotoCamera,
        Some(MediaType::Video),
        Position::Back,
        &hw,
    );
    assert!(missing.is_none());
}
