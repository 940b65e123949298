//! What a notification shows, as a function of the value it reports.

use vstd::prelude::*;
use vstd::string::*;
use crate::event::Subject;
use crate::notify::{NotificationView, Urgency};
use crate::pulse::Volume;
use crate::text::{decimal, decimal_string};
use crate::upower::{BatteryLevel, BatteryState};

verus! {

/// The four icons a volume notification can carry.
#[derive(Clone, Copy, Debug, PartialEq, Eq, Structural)]
pub enum VolumeBucket {
    Muted,
    Low,
    Medium,
    High,
}

impl VolumeBucket {
    /// The bucket of a volume: muted when the flag is set or the value is 0,
    /// low below 33, medium below 66, high from 66 on.
    pub open spec fn of(volume: Volume) -> VolumeBucket {
        if volume.muted || volume.value == 0 {
            VolumeBucket::Muted
        } else if volume.value < 33 {
            VolumeBucket::Low
        } else if volume.value < 66 {
            VolumeBucket::Medium
        } else {
            VolumeBucket::High
        }
    }

    /// Position of the bucket on the scale from silent to loud.
    pub open spec fn rank(self) -> nat {
        match self {
            VolumeBucket::Muted => 0,
            VolumeBucket::Low => 1,
            VolumeBucket::Medium => 2,
            VolumeBucket::High => 3,
        }
    }

    /// Name of the icon, as the icon theme knows it.
    pub open spec fn spec_icon(self) -> Seq<char> {
        match self {
            VolumeBucket::Muted => "audio-volume-muted-symbolic"@,
            VolumeBucket::Low => "audio-volume-low-symbolic"@,
            VolumeBucket::Medium => "audio-volume-medium-symbolic"@,
            VolumeBucket::High => "audio-volume-high-symbolic"@,
        }
    }

    pub fn from_volume(volume: &Volume) -> (bucket: VolumeBucket)
        ensures
            bucket == VolumeBucket::of(*volume),
    {
        if volume.muted || volume.value == 0 {
            VolumeBucket::Muted
        } else if volume.value < 33 {
            VolumeBucket::Low
        } else if volume.value < 66 {
            VolumeBucket::Medium
        } else {
            VolumeBucket::High
        }
    }

    pub fn icon(self) -> (name: &'static str)
        ensures
            name@ == self.spec_icon(),
    {
        match self {
            VolumeBucket::Muted => "audio-volume-muted-symbolic",
            VolumeBucket::Low => "audio-volume-low-symbolic",
            VolumeBucket::Medium => "audio-volume-medium-symbolic",
            VolumeBucket::High => "audio-volume-high-symbolic",
        }
    }

    /// A louder volume never has a quieter icon: among volumes with the
    /// same mute flag the bucket rises with the value, and muting never
    /// raises it.
    pub proof fn bucket_is_monotonic(a: Volume, b: Volume)
        requires
            a.value <= b.value,
        ensures
            a.muted == b.muted ==> VolumeBucket::of(a).rank() <= VolumeBucket::of(b).rank(),
            a.muted ==> VolumeBucket::of(a).rank() <= VolumeBucket::of(b).rank(),
    {
    }

    /// Where the buckets begin and end: muted is the mute flag or the value
    /// 0; low is 1 to 32, medium 33 to 65, high 66 and more.
    pub proof fn bucket_boundaries(volume: Volume)
        ensures
            VolumeBucket::of(volume) == VolumeBucket::Muted <==> volume.muted || volume.value == 0,
            VolumeBucket::of(volume) == VolumeBucket::Low <==> !volume.muted && 1 <= volume.value
                <= 32,
            VolumeBucket::of(volume) == VolumeBucket::Medium <==> !volume.muted && 33
                <= volume.value <= 65,
            VolumeBucket::of(volume) == VolumeBucket::High <==> !volume.muted && 66
                <= volume.value,
    {
    }
}

/// The headline of a volume notification.
pub open spec fn spec_volume_summary(volume: Volume) -> Seq<char> {
    if volume.muted {
        "Volume [ muted ]"@
    } else {
        "Volume [ "@ + decimal(volume.value as nat) + "% ]"@
    }
}

pub fn volume_summary(volume: &Volume) -> (summary: String)
    ensures
        summary@ == spec_volume_summary(*volume),
{
    if volume.muted {
        String::from_str("Volume [ muted ]")
    } else {
        let mut summary = String::from_str("Volume [ ");
        summary.append(decimal_string(volume.value).as_str());
        summary.append("% ]");
        summary
    }
}

/// The progress that a volume notification shows: the value, and none
/// when muted.
pub open spec fn spec_volume_progress(volume: Volume) -> Option<i32> {
    if volume.muted {
        None
    } else {
        Some(volume.value as i32)
    }
}

pub fn volume_progress(volume: &Volume) -> (progress: Option<i32>)
    ensures
        progress == spec_volume_progress(*volume),
{
    if volume.muted {
        None
    } else {
        Some(#[verifier::truncate] (volume.value as i32))
    }
}

/// The headline for a charge state.
pub open spec fn spec_battery_state_summary(state: BatteryState) -> Seq<char> {
    match state {
        BatteryState::Charging => "Battery is charging"@,
        BatteryState::Discharging => "Battery is discharging"@,
        BatteryState::Empty => "Battery is empty"@,
        BatteryState::FullyCharged => "Battery fully charged"@,
        BatteryState::PendingCharge => "Battery pending charge"@,
        BatteryState::PendingDischarge => "Battery pending discharge"@,
        BatteryState::Unknown => "Battery state unknown"@,
    }
}

/// The icon for a charge state; the pending and the unknown states share
/// one.
pub open spec fn spec_battery_state_icon(state: BatteryState) -> Seq<char> {
    match state {
        BatteryState::Charging => "battery-charging-symbolic"@,
        BatteryState::Discharging => "battery-symbolic"@,
        BatteryState::Empty => "battery-empty-symbolic"@,
        BatteryState::FullyCharged => "battery-full-charged-symbolic"@,
        _ => "battery-missing-symbolic"@,
    }
}

pub fn battery_state_summary(state: BatteryState) -> (summary: &'static str)
    ensures
        summary@ == spec_battery_state_summary(state),
{
    match state {
        BatteryState::Charging => "Battery is charging",
        BatteryState::Discharging => "Battery is discharging",
        BatteryState::Empty => "Battery is empty",
        BatteryState::FullyCharged => "Battery fully charged",
        BatteryState::PendingCharge => "Battery pending charge",
        BatteryState::PendingDischarge => "Battery pending discharge",
        BatteryState::Unknown => "Battery state unknown",
    }
}

pub fn battery_state_icon(state: BatteryState) -> (icon: &'static str)
    ensures
        icon@ == spec_battery_state_icon(state),
{
    match state {
        BatteryState::Charging => "battery-charging-symbolic",
        BatteryState::Discharging => "battery-symbolic",
        BatteryState::Empty => "battery-empty-symbolic",
        BatteryState::FullyCharged => "battery-full-charged-symbolic",
        _ => "battery-missing-symbolic",
    }
}

/// The headline for a battery level.
pub open spec fn spec_battery_level_summary(level: BatteryLevel) -> Seq<char> {
    match level {
        BatteryLevel::Critical => "Battery level critical"@,
        BatteryLevel::Low => "Battery level low"@,
        BatteryLevel::Normal => "Battery level normal"@,
        BatteryLevel::High => "Battery level high"@,
        BatteryLevel::Full => "Battery level full"@,
        _ => "Battery level unknown"@,
    }
}

/// The icon for a battery level.
pub open spec fn spec_battery_level_icon(level: BatteryLevel) -> Seq<char> {
    match level {
        BatteryLevel::Critical => "battery-caution-symbolic"@,
        BatteryLevel::Low => "battery-low-symbolic"@,
        BatteryLevel::Normal => "battery-good-symbolic"@,
        BatteryLevel::High => "battery-full-symbolic"@,
        BatteryLevel::Full => "battery-full-charged-symbolic"@,
        _ => "battery-missing-symbolic"@,
    }
}

/// How pressing a battery level is: critical is critical, low is normal,
/// every other level is low.
pub open spec fn spec_battery_level_urgency(level: BatteryLevel) -> Urgency {
    match level {
        BatteryLevel::Critical => Urgency::Critical,
        BatteryLevel::Low => Urgency::Normal,
        _ => Urgency::Low,
    }
}

pub fn battery_level_summary(level: BatteryLevel) -> (summary: &'static str)
    ensures
        summary@ == spec_battery_level_summary(level),
{
    match level {
        BatteryLevel::Critical => "Battery level critical",
        BatteryLevel::Low => "Battery level low",
        BatteryLevel::Normal => "Battery level normal",
        BatteryLevel::High => "Battery level high",
        BatteryLevel::Full => "Battery level full",
        _ => "Battery level unknown",
    }
}

pub fn battery_level_icon(level: BatteryLevel) -> (icon: &'static str)
    ensures
        icon@ == spec_battery_level_icon(level),
{
    match level {
        BatteryLevel::Critical => "battery-caution-symbolic",
        BatteryLevel::Low => "battery-low-symbolic",
        BatteryLevel::Normal => "battery-good-symbolic",
        BatteryLevel::High => "battery-full-symbolic",
        BatteryLevel::Full => "battery-full-charged-symbolic",
        _ => "battery-missing-symbolic",
    }
}

#[verifier::when_used_as_spec(spec_battery_level_urgency)]
pub fn battery_level_urgency(level: BatteryLevel) -> (urgency: Urgency)
    ensures
        urgency == spec_battery_level_urgency(level),
{
    match level {
        BatteryLevel::Critical => Urgency::Critical,
        BatteryLevel::Low => Urgency::Normal,
        _ => Urgency::Low,
    }
}

/// The headline for the power source.
pub open spec fn spec_power_source_summary(on_battery: bool) -> Seq<char> {
    if on_battery {
        "Running on battery power"@
    } else {
        "Connected to power"@
    }
}

/// The icon for the power source.
pub open spec fn spec_power_source_icon(on_battery: bool) -> Seq<char> {
    if on_battery {
        "battery-symbolic"@
    } else {
        "ac-adapter-symbolic"@
    }
}

pub fn power_source_summary(on_battery: bool) -> (summary: &'static str)
    ensures
        summary@ == spec_power_source_summary(on_battery),
{
    if on_battery {
        "Running on battery power"
    } else {
        "Connected to power"
    }
}

pub fn power_source_icon(on_battery: bool) -> (icon: &'static str)
    ensures
        icon@ == spec_power_source_icon(on_battery),
{
    if on_battery {
        "battery-symbolic"
    } else {
        "ac-adapter-symbolic"
    }
}

/// The notification for a volume, replacing the one with the given id.
pub open spec fn volume_notification(id: u32, volume: Volume) -> NotificationView {
    NotificationView {
        summary: spec_volume_summary(volume),
        progress: spec_volume_progress(volume),
        icon: VolumeBucket::of(volume).spec_icon(),
        id,
        ..NotificationView::blank()
    }
}

/// The notification for a change of the default device: of normal
/// urgency and without an icon.
pub open spec fn device_change_notification(id: u32) -> NotificationView {
    NotificationView {
        summary: "Device changed"@,
        urgency: Urgency::Normal,
        id,
        ..NotificationView::blank()
    }
}

/// The notification for a charge state.
pub open spec fn battery_state_notification(id: u32, state: BatteryState) -> NotificationView {
    NotificationView {
        summary: spec_battery_state_summary(state),
        icon: spec_battery_state_icon(state),
        id,
        ..NotificationView::blank()
    }
}

/// The notification for a battery level.
pub open spec fn battery_level_notification(id: u32, level: BatteryLevel) -> NotificationView {
    NotificationView {
        summary: spec_battery_level_summary(level),
        icon: spec_battery_level_icon(level),
        urgency: spec_battery_level_urgency(level),
        id,
        ..NotificationView::blank()
    }
}

/// The notification for the power source.
pub open spec fn power_source_notification(id: u32, on_battery: bool) -> NotificationView {
    NotificationView {
        summary: spec_power_source_summary(on_battery),
        icon: spec_power_source_icon(on_battery),
        id,
        ..NotificationView::blank()
    }
}

/// The notification that tells of a subject.
pub open spec fn notification_for(id: u32, subject: Subject) -> NotificationView {
    match subject {
        Subject::Volume(volume) => volume_notification(id, volume),
        Subject::DeviceChange => device_change_notification(id),
        Subject::BatteryState(state) => battery_state_notification(id, state),
        Subject::BatteryLevel(level) => battery_level_notification(id, level),
        Subject::OnBattery(on_battery) => power_source_notification(id, on_battery),
    }
}

} // verus!
