//! What the power service reports, and what the subscription to it does
//! with each reading.

use vstd::prelude::*;
use crate::event::Event;

verus! {

/// Charge state of the display battery.
#[derive(Clone, Copy, Debug, PartialEq, Eq, Hash, Structural)]
pub enum BatteryState {
    Unknown,
    Charging,
    Discharging,
    Empty,
    FullyCharged,
    PendingCharge,
    PendingDischarge,
}

impl BatteryState {
    /// The number that the power service uses for the state.
    pub open spec fn spec_code(self) -> u32 {
        match self {
            BatteryState::Unknown => 0,
            BatteryState::Charging => 1,
            BatteryState::Discharging => 2,
            BatteryState::Empty => 3,
            BatteryState::FullyCharged => 4,
            BatteryState::PendingCharge => 5,
            BatteryState::PendingDischarge => 6,
        }
    }

    /// The state that a number of the power service stands for, if any.
    pub open spec fn spec_from_code(code: u32) -> Option<BatteryState> {
        if code == 0 {
            Some(BatteryState::Unknown)
        } else if code == 1 {
            Some(BatteryState::Charging)
        } else if code == 2 {
            Some(BatteryState::Discharging)
        } else if code == 3 {
            Some(BatteryState::Empty)
        } else if code == 4 {
            Some(BatteryState::FullyCharged)
        } else if code == 5 {
            Some(BatteryState::PendingCharge)
        } else if code == 6 {
            Some(BatteryState::PendingDischarge)
        } else {
            None
        }
    }

    /// The state in lower case, as it is written out.
    pub open spec fn spec_name(self) -> Seq<char> {
        match self {
            BatteryState::Unknown => "unknown"@,
            BatteryState::Charging => "charging"@,
            BatteryState::Discharging => "discharging"@,
            BatteryState::Empty => "empty"@,
            BatteryState::FullyCharged => "fullycharged"@,
            BatteryState::PendingCharge => "pendingcharge"@,
            BatteryState::PendingDischarge => "pendingdischarge"@,
        }
    }

    #[verifier::when_used_as_spec(spec_code)]
    pub fn code(self) -> (code: u32)
        ensures
            code == self.spec_code(),
    {
        match self {
            BatteryState::Unknown => 0,
            BatteryState::Charging => 1,
            BatteryState::Discharging => 2,
            BatteryState::Empty => 3,
            BatteryState::FullyCharged => 4,
            BatteryState::PendingCharge => 5,
            BatteryState::PendingDischarge => 6,
        }
    }

    pub fn from_code(code: u32) -> (state: Option<BatteryState>)
        ensures
            state == BatteryState::spec_from_code(code),
    {
        match code {
            0 => Some(BatteryState::Unknown),
            1 => Some(BatteryState::Charging),
            2 => Some(BatteryState::Discharging),
            3 => Some(BatteryState::Empty),
            4 => Some(BatteryState::FullyCharged),
            5 => Some(BatteryState::PendingCharge),
            6 => Some(BatteryState::PendingDischarge),
            _ => None,
        }
    }

    pub fn name(self) -> (name: &'static str)
        ensures
            name@ == self.spec_name(),
    {
        match self {
            BatteryState::Unknown => "unknown",
            BatteryState::Charging => "charging",
            BatteryState::Discharging => "discharging",
            BatteryState::Empty => "empty",
            BatteryState::FullyCharged => "fullycharged",
            BatteryState::PendingCharge => "pendingcharge",
            BatteryState::PendingDischarge => "pendingdischarge",
        }
    }
}

impl Default for BatteryState {
    fn default() -> (state: Self)
        ensures
            state == BatteryState::Unknown,
    {
        BatteryState::Unknown
    }
}

/// Coarse level of the display battery.
#[derive(Clone, Copy, Debug, PartialEq, Eq, Hash, Structural)]
pub enum BatteryLevel {
    Unknown,
    /// The battery reports no coarse level.
    NotReported,
    Low,
    Critical,
    Normal,
    High,
    Full,
}

impl BatteryLevel {
    /// The number that the power service uses for the level.
    pub open spec fn spec_code(self) -> u32 {
        match self {
            BatteryLevel::Unknown => 0,
            BatteryLevel::NotReported => 1,
            BatteryLevel::Low => 3,
            BatteryLevel::Critical => 4,
            BatteryLevel::Normal => 6,
            BatteryLevel::High => 7,
            BatteryLevel::Full => 8,
        }
    }

    /// The level that a number of the power service stands for, if any.
    pub open spec fn spec_from_code(code: u32) -> Option<BatteryLevel> {
        if code == 0 {
            Some(BatteryLevel::Unknown)
        } else if code == 1 {
            Some(BatteryLevel::NotReported)
        } else if code == 3 {
            Some(BatteryLevel::Low)
        } else if code == 4 {
            Some(BatteryLevel::Critical)
        } else if code == 6 {
            Some(BatteryLevel::Normal)
        } else if code == 7 {
            Some(BatteryLevel::High)
        } else if code == 8 {
            Some(BatteryLevel::Full)
        } else {
            None
        }
    }

    /// The level in lower case, as it is written out.
    pub open spec fn spec_name(self) -> Seq<char> {
        match self {
            BatteryLevel::Unknown => "unknown"@,
            BatteryLevel::NotReported => "none"@,
            BatteryLevel::Low => "low"@,
            BatteryLevel::Critical => "critical"@,
            BatteryLevel::Normal => "normal"@,
            BatteryLevel::High => "high"@,
            BatteryLevel::Full => "full"@,
        }
    }

    #[verifier::when_used_as_spec(spec_code)]
    pub fn code(self) -> (code: u32)
        ensures
            code == self.spec_code(),
    {
        match self {
            BatteryLevel::Unknown => 0,
            BatteryLevel::NotReported => 1,
            BatteryLevel::Low => 3,
            BatteryLevel::Critical => 4,
            BatteryLevel::Normal => 6,
            BatteryLevel::High => 7,
            BatteryLevel::Full => 8,
        }
    }

    pub fn from_code(code: u32) -> (level: Option<BatteryLevel>)
        ensures
            level == BatteryLevel::spec_from_code(code),
    {
        match code {
            0 => Some(BatteryLevel::Unknown),
            1 => Some(BatteryLevel::NotReported),
            3 => Some(BatteryLevel::Low),
            4 => Some(BatteryLevel::Critical),
            6 => Some(BatteryLevel::Normal),
            7 => Some(BatteryLevel::High),
            8 => Some(BatteryLevel::Full),
            _ => None,
        }
    }

    pub fn name(self) -> (name: &'static str)
        ensures
            name@ == self.spec_name(),
    {
        match self {
            BatteryLevel::Unknown => "unknown",
            BatteryLevel::NotReported => "none",
            BatteryLevel::Low => "low",
            BatteryLevel::Critical => "critical",
            BatteryLevel::Normal => "normal",
            BatteryLevel::High => "high",
            BatteryLevel::Full => "full",
        }
    }
}

impl Default for BatteryLevel {
    fn default() -> (level: Self)
        ensures
            level == BatteryLevel::Unknown,
    {
        BatteryLevel::Unknown
    }
}

/// The event for a charge state that was read.
pub fn handle_state(value: BatteryState) -> (event: Event)
    ensures
        event == Event::BatteryState(value),
{
    Event::BatteryState(value)
}

/// The event for a battery level that was read.
pub fn handle_battery_level(value: BatteryLevel) -> (event: Event)
    ensures
        event == Event::BatteryLevel(value),
{
    Event::BatteryLevel(value)
}

/// The event for a power source that was read.
pub fn handle_on_battery(value: bool) -> (event: Event)
    ensures
        event == Event::OnBattery(value),
{
    Event::OnBattery(value)
}

/// The event for a percentage that was read, in whole percent.
pub fn handle_battery_percentage(value: u64) -> (event: Event)
    ensures
        event == Event::BatteryPercentage(value),
{
    Event::BatteryPercentage(value)
}

/// One of the four things that the power service is watched for.
#[derive(Clone, Copy, Debug, PartialEq, Eq, Hash, Structural)]
pub enum Property {
    Percentage,
    OnBattery,
    State,
    Level,
}

/// A value that was read from the power service.
#[derive(Clone, Copy, Debug, PartialEq, Eq, Structural)]
pub enum Reading {
    /// Charge in whole percent.
    Percentage(u64),
    OnBattery(bool),
    State(BatteryState),
    Level(BatteryLevel),
}

impl Reading {
    /// The event that tells of the value.
    pub open spec fn spec_event(self) -> Event {
        match self {
            Reading::Percentage(value) => Event::BatteryPercentage(value),
            Reading::OnBattery(value) => Event::OnBattery(value),
            Reading::State(value) => Event::BatteryState(value),
            Reading::Level(value) => Event::BatteryLevel(value),
        }
    }

    #[verifier::when_used_as_spec(spec_event)]
    pub fn event(self) -> (event: Event)
        ensures
            event == self.spec_event(),
    {
        match self {
            Reading::Percentage(value) => handle_battery_percentage(value),
            Reading::OnBattery(value) => handle_on_battery(value),
            Reading::State(value) => handle_state(value),
            Reading::Level(value) => handle_battery_level(value),
        }
    }
}

/// The first reads of a subscription, one for each property; `None` where
/// the read failed or was not made.
#[derive(Clone, Copy, Debug, PartialEq, Eq, Structural)]
pub struct InitialReadings {
    pub percentage: Option<u64>,
    pub on_battery: Option<bool>,
    pub state: Option<BatteryState>,
    pub level: Option<BatteryLevel>,
}

impl InitialReadings {
    /// The first property, in the order percentage, power source, state,
    /// level, whose read failed.
    pub open spec fn first_failure(self) -> Option<Property> {
        if self.percentage is None {
            Some(Property::Percentage)
        } else if self.on_battery is None {
            Some(Property::OnBattery)
        } else if self.state is None {
            Some(Property::State)
        } else if self.level is None {
            Some(Property::Level)
        } else {
            None
        }
    }

    /// One event for each property that was read before the first failure,
    /// in the order percentage, power source, state, level.
    pub open spec fn events(self) -> Seq<Event> {
        if self.percentage is None {
            seq![]
        } else if self.on_battery is None {
            seq![Event::BatteryPercentage(self.percentage->0)]
        } else if self.state is None {
            seq![Event::BatteryPercentage(self.percentage->0), Event::OnBattery(self.on_battery->0)]
        } else if self.level is None {
            seq![
                Event::BatteryPercentage(self.percentage->0),
                Event::OnBattery(self.on_battery->0),
                Event::BatteryState(self.state->0),
            ]
        } else {
            seq![
                Event::BatteryPercentage(self.percentage->0),
                Event::OnBattery(self.on_battery->0),
                Event::BatteryState(self.state->0),
                Event::BatteryLevel(self.level->0),
            ]
        }
    }
}

/// A subscription could not be set up: the first read of a property failed.
#[derive(Clone, Copy, Debug, PartialEq, Eq, Structural)]
pub struct SubscribeError {
    pub property: Property,
}

/// What setting up a subscription leads to: the events to emit, in order,
/// and whether the subscription stands.
#[derive(Debug, PartialEq, Eq)]
pub struct Subscription {
    pub events: Vec<Event>,
    pub outcome: Result<(), SubscribeError>,
}

/// What a wait for the next change of a property brought.
#[derive(Clone, Copy, Debug, PartialEq, Eq, Structural)]
pub enum Change {
    /// No further change will come.
    Ended,
    /// A change was announced, but the new value could not be read.
    Unreadable,
    /// A change was announced and the new value read.
    Value(Reading),
}

/// What a listener does after a wait.
#[derive(Clone, Copy, Debug, PartialEq, Eq, Structural)]
pub enum Listen {
    /// Stop listening.
    Stop,
    /// Emit nothing and wait for the next change.
    Skip,
    /// Emit the event and wait for the next change.
    Emit(Event),
}

/// The step of a listener: a value that was read is emitted, a change
/// whose value could not be read is passed over, and the end of the changes
/// ends the listener.
pub open spec fn spec_listen(change: Change) -> Listen {
    match change {
        Change::Ended => Listen::Stop,
        Change::Unreadable => Listen::Skip,
        Change::Value(reading) => Listen::Emit(reading.spec_event()),
    }
}

#[verifier::when_used_as_spec(spec_listen)]
pub fn listen(change: Change) -> (step: Listen)
    ensures
        step == spec_listen(change),
{
    match change {
        Change::Ended => Listen::Stop,
        Change::Unreadable => Listen::Skip,
        Change::Value(reading) => Listen::Emit(reading.event()),
    }
}

/// The battery as the program last saw it.
#[derive(Debug)]
pub struct BatteryManager {
    percentage: u64,
}

impl BatteryManager {
    /// The charge that is remembered, in whole percent.
    pub closed spec fn spec_get_battery(&self) -> u64 {
        self.percentage
    }

    /// A manager that has seen nothing yet: it remembers a charge of 0.
    pub fn new() -> (manager: Self)
        ensures
            manager.get_battery() == 0,
    {
        BatteryManager { percentage: 0 }
    }

    pub fn set_battery(&mut self, percentage: u64)
        ensures
            final(self).get_battery() == percentage,
    {
        self.percentage = percentage;
    }

    #[verifier::when_used_as_spec(spec_get_battery)]
    pub fn get_battery(&self) -> (percentage: u64)
        ensures
            percentage == self.spec_get_battery(),
    {
        self.percentage
    }

    /// Sets up the subscription from the first reads. The reads count in
    /// the order percentage, power source, state, level. Each one that was
    /// made before the first failure gives one event, and the percentage is
    /// remembered where it was read. The subscription stands if no read
    /// failed; otherwise the error names the first property whose read
    /// failed.
    pub fn subscribe(&mut self, initial: &InitialReadings) -> (subscription: Subscription)
        ensures
            subscription.events@ == initial.events(),
            subscription.outcome == match initial.first_failure() {
                Some(property) => Err::<(), SubscribeError>(SubscribeError { property }),
                None => Ok(()),
            },
            final(self).get_battery() == match initial.percentage {
                Some(percentage) => percentage,
                None => old(self).get_battery(),
            },
    {
        let mut events: Vec<Event> = Vec::new();
        let percentage = match initial.percentage {
            Some(percentage) => percentage,
            None => {
                return Subscription { events, outcome: Err(SubscribeError { property: Property::Percentage }) };
            },
        };
        self.percentage = percentage;
        events.push(handle_battery_percentage(percentage));
        let on_battery = match initial.on_battery {
            Some(on_battery) => on_battery,
            None => {
                return Subscription { events, outcome: Err(SubscribeError { property: Property::OnBattery }) };
            },
        };
        events.push(handle_on_battery(on_battery));
        let state = match initial.state {
            Some(state) => state,
            None => {
                return Subscription { events, outcome: Err(SubscribeError { property: Property::State }) };
            },
        };
        events.push(handle_state(state));
        let level = match initial.level {
            Some(level) => level,
            None => {
                return Subscription { events, outcome: Err(SubscribeError { property: Property::Level }) };
            },
        };
        events.push(handle_battery_level(level));
        Subscription { events, outcome: Ok(()) }
    }
}

} // verus!
