//! Device and interface queries, as a value model.
//!
//! [`Device::current`] is a snapshot of the modeled device's state; the
//! monitoring switches behave as documented: a reading whose monitoring
//! is off reports the unknown value.

use vstd::prelude::*;

use crate::ns::Uuid;

verus! {

/// Physical orientation of the device.
#[derive(Debug, PartialEq, Eq, Structural, Copy, Clone)]
pub enum Orientation {
    Unknown,
    /// Device oriented vertically, home button on the bottom.
    Portrait,
    /// Device oriented vertically, home button on the top.
    PortraitUpsideDown,
    /// Device oriented horizontally, home button on the right.
    LandscapeLeft,
    /// Device oriented horizontally, home button on the left.
    LandscapeRight,
    /// Device oriented flat, face up.
    FaceUp,
    /// Device oriented flat, face down.
    FaceDown,
}

impl Orientation {
    /// True exactly for the two vertical orientations.
    pub fn is_portrait(&self) -> (r: bool)
        ensures
            r == (*self == Orientation::Portrait || *self == Orientation::PortraitUpsideDown),
    {
        *self == Self::Portrait || *self == Self::PortraitUpsideDown
    }

    /// True exactly for the two horizontal orientations.
    pub fn is_landscape(&self) -> (r: bool)
        ensures
            r == (*self == Orientation::LandscapeLeft || *self == Orientation::LandscapeRight),
    {
        *self == Self::LandscapeLeft || *self == Self::LandscapeRight
    }

    /// True exactly for the two flat orientations.
    pub fn is_flat(&self) -> (r: bool)
        ensures
            r == (*self == Orientation::FaceUp || *self == Orientation::FaceDown),
    {
        *self == Self::FaceUp || *self == Self::FaceDown
    }
}

/// Battery charge state.
#[derive(Debug, PartialEq, Eq, Structural, Copy, Clone)]
pub enum BatteryState {
    Unknown,
    /// On battery, discharging.
    Unplugged,
    /// Plugged in, less than 100%.
    Charging,
    /// Plugged in, at 100%.
    Full,
}

/// The style of interface the device presents.
#[derive(Debug, PartialEq, Eq, Structural, Copy, Clone)]
pub enum UserInterfaceIdiom {
    Unspecified,
    /// Phone and compact-player style interface.
    Phone,
    /// Tablet style interface.
    Pad,
    /// Television style interface.
    Tv,
    /// In-car style interface.
    CarPlay,
    /// Desktop-optimized interface.
    Mac,
}

/// The current device, as a snapshot of the modeled hardware's state.
pub struct Device {
    idiom: UserInterfaceIdiom,
    multitasking: bool,
    near_face: bool,
    proximity_monitoring: bool,
    battery: BatteryState,
    battery_monitoring: bool,
    vendor_id: Option<Uuid>,
    orientation_reading: Orientation,
    orientation_notifications: bool,
}

impl Device {
    /// Which interface idiom the device presents.
    pub closed spec fn idiom_spec(self) -> UserInterfaceIdiom {
        self.idiom
    }

    /// Whether proximity monitoring is switched on.
    pub closed spec fn proximity_monitoring_spec(self) -> bool {
        self.proximity_monitoring
    }

    /// Whether something is near the face sensor.
    pub closed spec fn near_face_spec(self) -> bool {
        self.near_face
    }

    /// Whether battery monitoring is switched on.
    pub closed spec fn battery_monitoring_spec(self) -> bool {
        self.battery_monitoring
    }

    /// The battery state the hardware would report.
    pub closed spec fn battery_spec(self) -> BatteryState {
        self.battery
    }

    /// The identifier assigned to the device's vendor, if one has been
    /// assigned yet.
    pub closed spec fn vendor_id_spec(self) -> Option<Uuid> {
        self.vendor_id
    }

    /// The hardware's orientation reading.
    pub closed spec fn orientation_reading_spec(self) -> Orientation {
        self.orientation_reading
    }

    /// Whether orientation notifications are being generated.
    pub closed spec fn orientation_notifications_spec(self) -> bool {
        self.orientation_notifications
    }

    /// Whether the platform supports multitasking.
    pub closed spec fn multitasking_spec(self) -> bool {
        self.multitasking
    }

    /// The current device: a phone-style device with every monitoring
    /// switch off, a full battery behind the (off) battery monitor, flat
    /// on a table, and no vendor identifier assigned yet.
    pub fn current() -> (d: Device)
        ensures
            d.idiom_spec() == UserInterfaceIdiom::Phone,
            d.multitasking_spec(),
            !d.proximity_monitoring_spec(),
            !d.near_face_spec(),
            !d.battery_monitoring_spec(),
            d.battery_spec() == BatteryState::Full,
            d.vendor_id_spec() is None,
            d.orientation_reading_spec() == Orientation::FaceUp,
            !d.orientation_notifications_spec(),
    {
        Device {
            idiom: UserInterfaceIdiom::Phone,
            multitasking: true,
            near_face: false,
            proximity_monitoring: false,
            battery: BatteryState::Full,
            battery_monitoring: false,
            vendor_id: None,
            orientation_reading: Orientation::FaceUp,
            orientation_notifications: false,
        }
    }

    /// Which interface idiom the device presents.
    pub fn user_interface_idiom(&self) -> (r: UserInterfaceIdiom)
        ensures
            r == self.idiom_spec(),
    {
        self.idiom
    }

    /// Whether the platform supports multitasking.
    pub fn is_multitasking_supported(&self) -> (r: bool)
        ensures
            r == self.multitasking_spec(),
    {
        self.multitasking
    }

    /// The proximity reading: something near the face sensor is reported
    /// only while proximity monitoring is on.
    pub fn proximity_state(&self) -> (r: bool)
        ensures
            r == (self.proximity_monitoring_spec() && self.near_face_spec()),
    {
        self.proximity_monitoring && self.near_face
    }

    /// Whether proximity monitoring is switched on.
    pub fn is_proximity_monitoring_enabled(&self) -> (r: bool)
        ensures
            r == self.proximity_monitoring_spec(),
    {
        self.proximity_monitoring
    }

    /// Switches proximity monitoring on or off; nothing else changes.
    pub fn set_proximity_monitoring_enabled(&mut self, val: bool)
        ensures
            final(self).proximity_monitoring_spec() == val,
            final(self).battery_monitoring_spec() == old(self).battery_monitoring_spec(),
            final(self).battery_spec() == old(self).battery_spec(),
            final(self).idiom_spec() == old(self).idiom_spec(),
            final(self).near_face_spec() == old(self).near_face_spec(),
            final(self).vendor_id_spec() == old(self).vendor_id_spec(),
            final(self).orientation_reading_spec() == old(self).orientation_reading_spec(),
            final(self).orientation_notifications_spec() == old(
                self,
            ).orientation_notifications_spec(),
            final(self).multitasking_spec() == old(self).multitasking_spec(),
    {
        self.proximity_monitoring = val;
    }

    /// The battery state: unknown while battery monitoring is off, the
    /// hardware's reading while it is on.
    pub fn battery_state(&self) -> (r: BatteryState)
        ensures
            self.battery_monitoring_spec() ==> r == self.battery_spec(),
            !self.battery_monitoring_spec() ==> r == BatteryState::Unknown,
    {
        if self.battery_monitoring {
            self.battery
        } else {
            BatteryState::Unknown
        }
    }

    /// Whether battery monitoring is switched on.
    pub fn is_battery_monitoring_enabled(&self) -> (r: bool)
        ensures
            r == self.battery_monitoring_spec(),
    {
        self.battery_monitoring
    }

    /// Switches battery monitoring on or off; nothing else changes.
    pub fn set_battery_monitoring_enabled(&mut self, val: bool)
        ensures
            final(self).battery_monitoring_spec() == val,
            final(self).proximity_monitoring_spec() == old(self).proximity_monitoring_spec(),
            final(self).battery_spec() == old(self).battery_spec(),
            final(self).idiom_spec() == old(self).idiom_spec(),
            final(self).near_face_spec() == old(self).near_face_spec(),
            final(self).vendor_id_spec() == old(self).vendor_id_spec(),
            final(self).orientation_reading_spec() == old(self).orientation_reading_spec(),
            final(self).orientation_notifications_spec() == old(
                self,
            ).orientation_notifications_spec(),
            final(self).multitasking_spec() == old(self).multitasking_spec(),
    {
        self.battery_monitoring = val;
    }

    /// The identifier assigned to the device's vendor, if one has been
    /// assigned yet.
    pub fn id_for_vendor(&self) -> (r: Option<Uuid>)
        ensures
            r == self.vendor_id_spec(),
    {
        self.vendor_id
    }

    /// The device's model name.
    pub fn model(&self) -> (m: &'static str)
        ensures
            m@ == "iPhone"@,
    {
        "iPhone"
    }

    /// The operating system's name.
    pub fn system_name(&self) -> (m: &'static str)
        ensures
            m@ == "iOS"@,
    {
        "iOS"
    }

    /// The device's user-assigned name.
    pub fn name(&self) -> (m: &'static str)
        ensures
            m@ == "iPhone"@,
    {
        "iPhone"
    }

    /// The operating system's version string.
    pub fn system_version(&self) -> (m: &'static str)
        ensures
            m@ == "17.0"@,
    {
        "17.0"
    }

    /// Returns the current device orientation.  This reports the unknown
    /// orientation unless device orientation notifications are being
    /// generated.
    pub fn orientation(&self) -> (r: Orientation)
        ensures
            self.orientation_notifications_spec() ==> r == self.orientation_reading_spec(),
            !self.orientation_notifications_spec() ==> r == Orientation::Unknown,
    {
        if self.orientation_notifications {
            self.orientation_reading
        } else {
            Orientation::Unknown
        }
    }

    /// Starts generating orientation notifications, so that
    /// [`Device::orientation`] reports the hardware's reading.
    pub fn begin_generating_device_orientation_notifications(&mut self)
        ensures
            final(self).orientation_notifications_spec(),
            final(self).orientation_reading_spec() == old(self).orientation_reading_spec(),
            final(self).proximity_monitoring_spec() == old(self).proximity_monitoring_spec(),
            final(self).battery_monitoring_spec() == old(self).battery_monitoring_spec(),
            final(self).battery_spec() == old(self).battery_spec(),
            final(self).idiom_spec() == old(self).idiom_spec(),
            final(self).near_face_spec() == old(self).near_face_spec(),
            final(self).vendor_id_spec() == old(self).vendor_id_spec(),
            final(self).multitasking_spec() == old(self).multitasking_spec(),
    {
        self.orientation_notifications = true;
    }
}

} // verus!
