//! Capture devices and sessions, as a value model.
//!
//! The system's capture hardware is a registry of devices; the default
//! device for a (kind, media, position) query is the first registered
//! device that matches it.

use vstd::prelude::*;

use crate::av::MediaType;

verus! {

/// Where a capture device points.
#[derive(Clone, Copy, PartialEq, Eq, Structural, Debug)]
pub enum Position {
    Unspecified,
    Back,
    Front,
}

/// The kind of capture device asked for.
#[derive(Clone, Copy, PartialEq, Eq, Structural, Debug)]
pub enum DeviceType {
    ExternalUnknown,
    BuiltInMicrophone,
    BuiltInWideAngleCamera,
    BuiltInTelephotoCamera,
    BuiltInUltraWideCamera,
    BuiltInDualCamera,
    BuiltInDualWideCamera,
    BuiltInTripleCamera,
    BuiltInTrueDepthCamera,
    BuiltInLiDarDepthCamera,
}

/// Orientation of the video delivered by a capture connection.
#[derive(Clone, Copy, PartialEq, Eq, Structural, Debug)]
pub enum CaptureVideoOrienation {
    Portrait,
    PortraitUpsideDown,
    LandscapeRight,
    LandscapeLeft,
}

/// Why a capture session was interrupted.
#[derive(Clone, Copy, PartialEq, Eq, Structural, Debug)]
pub enum InterruptionReason {
    VideoDeviceNotAvailableInBackground,
    AudioDeviceInUseByAnotherClient,
    VideoDeviceInUseByAnotherClient,
    VideoDeviceNotAvailableWithMultipleForegroundApps,
    VideoDeviceNotAvailableDueToSystemPressure,
}

/// One capture device the hardware registry knows.
#[derive(Clone, Copy, PartialEq, Eq, Structural, Debug)]
pub struct Device {
    pub id: u64,
    pub device_type: DeviceType,
    pub media: MediaType,
    pub position: Position,
}

/// Whether a registered device answers a (kind, media, position) query:
/// the kind must match, the media must match when one is asked for, and
/// the position must match unless the query leaves it unspecified.
pub open spec fn device_matches(
    d: Device,
    device_type: DeviceType,
    media_type: Option<MediaType>,
    position: Position,
) -> bool {
    &&& d.device_type == device_type
    &&& (media_type matches Some(m) ==> d.media == m)
    &&& (position != Position::Unspecified ==> d.position == position)
}

/// Index of the first registered device answering the query, or `-1`.
pub open spec fn find_device(
    devices: Seq<Device>,
    device_type: DeviceType,
    media_type: Option<MediaType>,
    position: Position,
) -> int
    decreases devices.len(),
{
    if devices.len() == 0 {
        -1
    } else if device_matches(devices.first(), device_type, media_type, position) {
        0
    } else {
        let r = find_device(devices.drop_first(), device_type, media_type, position);
        if r < 0 {
            -1
        } else {
            r + 1
        }
    }
}

/// What `find_device` promises: `-1` exactly when no device matches,
/// otherwise the least matching index.
proof fn lemma_find_device(
    devices: Seq<Device>,
    device_type: DeviceType,
    media_type: Option<MediaType>,
    position: Position,
)
    ensures
        -1 <= find_device(devices, device_type, media_type, position) < devices.len(),
        find_device(devices, device_type, media_type, position) >= 0 ==> {
            &&& device_matches(
                devices[find_device(devices, device_type, media_type, position)],
                device_type,
                media_type,
                position,
            )
            &&& forall|i: int|
                0 <= i < find_device(devices, device_type, media_type, position)
                    ==> !device_matches(#[trigger] devices[i], device_type, media_type, position)
        },
        find_device(devices, device_type, media_type, position) == -1 ==> forall|i: int|
            0 <= i < devices.len() ==> !device_matches(
                #[trigger] devices[i],
                device_type,
                media_type,
                position,
            ),
    decreases devices.len(),
{
    if devices.len() > 0 {
        lemma_find_device(devices.drop_first(), device_type, media_type, position);
        assert forall|i: int| 1 <= i < devices.len() implies devices.drop_first()[i - 1]
            == devices[i] by {}
    }
}

/// The registry of capture devices the system knows.
pub struct CaptureHw {
    devices: Vec<Device>,
}

impl CaptureHw {
    /// The registered devices, in registration order.
    pub closed spec fn devices_view(self) -> Seq<Device> {
        self.devices@
    }

    /// An empty registry.
    pub fn new() -> (hw: CaptureHw)
        ensures
            hw.devices_view() == Seq::<Device>::empty(),
    {
        let hw = CaptureHw { devices: Vec::new() };
        proof {
            assert(hw.devices_view() =~= Seq::<Device>::empty());
        }
        hw
    }

    /// Registers one device.
    pub fn add_device(&mut self, device: Device)
        requires
            old(self).devices_view().len() < usize::MAX,
        ensures
            final(self).devices_view() == old(self).devices_view().push(device),
    {
        self.devices.push(device);
    }
}

impl Device {
    /// The system's default device for the given kind, media and
    /// position: the first registered device answering the query, or
    /// nothing when none does.
    pub fn with_device_type_media_and_position(
        device_type: DeviceType,
        media_type: Option<MediaType>,
        position: Position,
        hw: &CaptureHw,
    ) -> (r: Option<Device>)
        ensures
            ({
                let i = find_device(hw.devices_view(), device_type, media_type, position);
                &&& i >= 0 ==> r == Some(hw.devices_view()[i])
                &&& i < 0 ==> r is None
            }),
    {
        proof {
            lemma_find_device(hw.devices_view(), device_type, media_type, position);
        }
        let n = hw.devices.len();
        let mut i: usize = 0;
        while i < n
            invariant
                n == hw.devices_view().len(),
                i <= n,
                forall|j: int|
                    0 <= j < i ==> !device_matches(
                        #[trigger] hw.devices_view()[j],
                        device_type,
                        media_type,
                        position,
                    ),
                -1 <= find_device(hw.devices_view(), device_type, media_type, position) < n,
                find_device(hw.devices_view(), device_type, media_type, position) >= 0 ==> {
                    &&& device_matches(
                        hw.devices_view()[find_device(
                            hw.devices_view(),
                            device_type,
                            media_type,
                            position,
                        )],
                        device_type,
                        media_type,
                        position,
                    )
                    &&& forall|j: int|
                        0 <= j < find_device(hw.devices_view(), device_type, media_type, position)
                            ==> !device_matches(
                            #[trigger] hw.devices_view()[j],
                            device_type,
                            media_type,
                            position,
                        )
                },
                find_device(hw.devices_view(), device_type, media_type, position) == -1 ==> forall|
                    j: int,
                |
                    0 <= j < n ==> !device_matches(
                        #[trigger] hw.devices_view()[j],
                        device_type,
                        media_type,
                        position,
                    ),
            decreases n - i,
        {
            let d = hw.devices[i];
            let type_ok = d.device_type == device_type;
            let media_ok = match media_type {
                Some(m) => d.media == m,
                None => true,
            };
            let pos_ok = match position {
                Position::Unspecified => true,
                _ => d.position == position,
            };
            if type_ok && media_ok && pos_ok {
                proof {
                    assert(device_matches(
                        hw.devices_view()[i as int],
                        device_type,
                        media_type,
                        position,
                    ));
                }
                return Some(d);
            }
            i = i + 1;
        }
        None
    }
}

} // verus!
