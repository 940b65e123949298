//! The one stream of events that both subsystems feed, and the slot of
//! on-screen notification that each event updates.

use vstd::prelude::*;
use crate::pulse::{Facility, Volume};
use crate::upower::{BatteryLevel, BatteryState};

verus! {

/// One observed change.
#[derive(Clone, Copy, Debug, PartialEq, Eq, Hash, Structural)]
pub enum Event {
    VolumeChanged,
    DefaultDeviceChanged,
    BatteryState(BatteryState),
    BatteryLevel(BatteryLevel),
    OnBattery(bool),
    BatteryPercentage(u64),
}

/// Which on-screen notification an event updates. Where an event carries a
/// battery state, a battery level or the power source, the value is part of
/// the category: each value has a notification of its own.
#[derive(Clone, Copy, Debug, PartialEq, Eq, Hash, Structural)]
pub enum Category {
    Volume,
    DeviceChange,
    BatteryState(BatteryState),
    BatteryLevel(BatteryLevel),
    OnBattery(bool),
}

impl Category {
    /// A number that tells the categories apart.
    pub open spec fn spec_key(self) -> u64 {
        match self {
            Category::Volume => 0,
            Category::DeviceChange => 1,
            Category::BatteryState(state) => (2 + state.spec_code()) as u64,
            Category::BatteryLevel(level) => (9 + level.spec_code()) as u64,
            Category::OnBattery(false) => 18,
            Category::OnBattery(true) => 19,
        }
    }

    #[verifier::when_used_as_spec(spec_key)]
    pub fn key(self) -> (key: u64)
        ensures
            key == self.spec_key(),
    {
        match self {
            Category::Volume => 0,
            Category::DeviceChange => 1,
            Category::BatteryState(state) => 2 + state.code() as u64,
            Category::BatteryLevel(level) => 9 + level.code() as u64,
            Category::OnBattery(false) => 18,
            Category::OnBattery(true) => 19,
        }
    }

    /// No two categories share a key.
    pub proof fn key_is_injective(a: Category, b: Category)
        requires
            a.spec_key() == b.spec_key(),
        ensures
            a == b,
    {
    }
}

/// What a notification tells of: an event with the value it is about. For
/// a change of volume that is the volume which the mixer reported when it
/// was asked.
#[derive(Clone, Copy, Debug, PartialEq, Eq, Structural)]
pub enum Subject {
    Volume(Volume),
    DeviceChange,
    BatteryState(BatteryState),
    BatteryLevel(BatteryLevel),
    OnBattery(bool),
}

impl Subject {
    /// The category whose notification tells of the subject.
    pub open spec fn spec_category(self) -> Category {
        match self {
            Subject::Volume(_) => Category::Volume,
            Subject::DeviceChange => Category::DeviceChange,
            Subject::BatteryState(state) => Category::BatteryState(state),
            Subject::BatteryLevel(level) => Category::BatteryLevel(level),
            Subject::OnBattery(on_battery) => Category::OnBattery(on_battery),
        }
    }

    #[verifier::when_used_as_spec(spec_category)]
    pub fn category(self) -> (category: Category)
        ensures
            category == self.spec_category(),
    {
        match self {
            Subject::Volume(_) => Category::Volume,
            Subject::DeviceChange => Category::DeviceChange,
            Subject::BatteryState(state) => Category::BatteryState(state),
            Subject::BatteryLevel(level) => Category::BatteryLevel(level),
            Subject::OnBattery(on_battery) => Category::OnBattery(on_battery),
        }
    }
}

impl Event {
    /// The event that a change at the mixer leads to: a change of a sink
    /// is a change of volume, a change of a card is a change of the
    /// default device, and every other change leads to none.
    pub open spec fn spec_from_facility(facility: Option<Facility>) -> Option<Event> {
        match facility {
            Some(Facility::Sink) => Some(Event::VolumeChanged),
            Some(Facility::Card) => Some(Event::DefaultDeviceChanged),
            _ => None,
        }
    }

    #[verifier::when_used_as_spec(spec_from_facility)]
    pub fn from_facility(facility: Option<Facility>) -> (event: Option<Event>)
        ensures
            event == Event::spec_from_facility(facility),
    {
        match facility {
            Some(Facility::Sink) => Some(Event::VolumeChanged),
            Some(Facility::Card) => Some(Event::DefaultDeviceChanged),
            _ => None,
        }
    }

    /// The category of the notification that the event leads to. A volume
    /// change leads to one only after the volume has been queried; a
    /// battery percentage leads to none.
    pub open spec fn spec_category(self) -> Option<Category> {
        match self {
            Event::VolumeChanged => Some(Category::Volume),
            Event::DefaultDeviceChanged => Some(Category::DeviceChange),
            Event::BatteryState(state) => Some(Category::BatteryState(state)),
            Event::BatteryLevel(level) => Some(Category::BatteryLevel(level)),
            Event::OnBattery(on_battery) => Some(Category::OnBattery(on_battery)),
            Event::BatteryPercentage(_) => None,
        }
    }

    /// What the notification for the event tells of, where the event
    /// itself says so: a change of volume says nothing before the mixer has
    /// been asked, and a battery percentage is not notified.
    pub open spec fn spec_subject(self) -> Option<Subject> {
        match self {
            Event::VolumeChanged => None,
            Event::DefaultDeviceChanged => Some(Subject::DeviceChange),
            Event::BatteryState(state) => Some(Subject::BatteryState(state)),
            Event::BatteryLevel(level) => Some(Subject::BatteryLevel(level)),
            Event::OnBattery(on_battery) => Some(Subject::OnBattery(on_battery)),
            Event::BatteryPercentage(_) => None,
        }
    }

    #[verifier::when_used_as_spec(spec_subject)]
    pub fn subject(self) -> (subject: Option<Subject>)
        ensures
            subject == self.spec_subject(),
    {
        match self {
            Event::VolumeChanged => None,
            Event::DefaultDeviceChanged => Some(Subject::DeviceChange),
            Event::BatteryState(state) => Some(Subject::BatteryState(state)),
            Event::BatteryLevel(level) => Some(Subject::BatteryLevel(level)),
            Event::OnBattery(on_battery) => Some(Subject::OnBattery(on_battery)),
            Event::BatteryPercentage(_) => None,
        }
    }

    #[verifier::when_used_as_spec(spec_category)]
    pub fn category(self) -> (category: Option<Category>)
        ensures
            category == self.spec_category(),
    {
        match self {
            Event::VolumeChanged => Some(Category::Volume),
            Event::DefaultDeviceChanged => Some(Category::DeviceChange),
            Event::BatteryState(state) => Some(Category::BatteryState(state)),
            Event::BatteryLevel(level) => Some(Category::BatteryLevel(level)),
            Event::OnBattery(on_battery) => Some(Category::OnBattery(on_battery)),
            Event::BatteryPercentage(_) => None,
        }
    }
}

} // verus!
