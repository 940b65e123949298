//! The notification manager: one slot for each category, holding the id of
//! the notification that is on screen for it.

use std::collections::HashMap;
use vstd::prelude::*;
use crate::content::{
    battery_level_icon, battery_level_notification, battery_level_summary, battery_level_urgency,
    battery_state_icon, battery_state_notification, battery_state_summary,
    device_change_notification, notification_for, power_source_icon, power_source_notification,
    power_source_summary, volume_notification, volume_progress, volume_summary, VolumeBucket,
};
use crate::event::{Category, Subject};
use crate::notify::{notify, NotificationBuilder, Urgency};
use crate::pulse::Volume;
use crate::upower::{BatteryLevel, BatteryState};

verus! {

broadcast use vstd::std_specs::hash::group_hash_axioms;

/// The id in the slot of a category; 0 where the slot is empty, which asks
/// the notification service for a new notification.
pub open spec fn slot_id(slots: Map<Category, u32>, category: Category) -> u32 {
    if slots.contains_key(category) {
        slots[category]
    } else {
        0
    }
}

/// The slots after a run of notifications, each given by its category and
/// the id that the notification service returned for it.
pub open spec fn slots_after(slots: Map<Category, u32>, sent: Seq<(Category, u32)>) -> Map<
    Category,
    u32,
>
    decreases sent.len(),
{
    if sent.len() == 0 {
        slots
    } else {
        slots_after(slots, sent.drop_last()).insert(sent.last().0, sent.last().1)
    }
}

/// The id that was returned for the last notification of a category in a
/// run of notifications, if the run holds one of that category.
pub open spec fn last_id(sent: Seq<(Category, u32)>, category: Category) -> Option<u32>
    decreases sent.len(),
{
    if sent.len() == 0 {
        None
    } else if sent.last().0 == category {
        Some(sent.last().1)
    } else {
        last_id(sent.drop_last(), category)
    }
}

/// After any run of notifications, the next notification of a category
/// replaces the id that was returned for the last one of that category,
/// whatever was sent for other categories in between; where the run holds
/// none of that category, the slot is as it was before.
pub proof fn replaces_the_last_id(
    slots: Map<Category, u32>,
    sent: Seq<(Category, u32)>,
    category: Category,
)
    ensures
        slot_id(slots_after(slots, sent), category) == match last_id(sent, category) {
            Some(id) => id,
            None => slot_id(slots, category),
        },
    decreases sent.len(),
{
    if sent.len() > 0 {
        replaces_the_last_id(slots, sent.drop_last(), category);
    }
}

/// Once a category has been notified, its next notification never asks
/// for a new one, as long as the notification service returns ids other
/// than 0.
pub proof fn replacement_is_never_new(
    slots: Map<Category, u32>,
    sent: Seq<(Category, u32)>,
    category: Category,
)
    requires
        forall|i: int| 0 <= i < sent.len() ==> (#[trigger] sent[i]).1 != 0,
        last_id(sent, category) is Some,
    ensures
        slot_id(slots_after(slots, sent), category) != 0,
    decreases sent.len(),
{
    if sent.last().0 != category {
        let before = sent.drop_last();
        assert forall|i: int| 0 <= i < before.len() implies (#[trigger] before[i]).1 != 0 by {
            assert(before[i] == sent[i]);
        }
        replacement_is_never_new(slots, before, category);
    }
}

/// Notifications of other categories leave the slot of a category as it
/// is.
pub proof fn categories_are_isolated(
    slots: Map<Category, u32>,
    sent: Seq<(Category, u32)>,
    category: Category,
)
    requires
        forall|i: int| 0 <= i < sent.len() ==> (#[trigger] sent[i]).0 != category,
    ensures
        slot_id(slots_after(slots, sent), category) == slot_id(slots, category),
        slots_after(slots, sent).contains_key(category) == slots.contains_key(category),
    decreases sent.len(),
{
    if sent.len() > 0 {
        let before = sent.drop_last();
        assert forall|i: int| 0 <= i < before.len() implies (#[trigger] before[i]).0
            != category by {
            assert(before[i] == sent[i]);
        }
        categories_are_isolated(slots, before, category);
    }
}

/// Builds the notification of each category and remembers the id that the
/// notification service gave it.
#[derive(Debug)]
pub struct Notifier {
    active_notifications: HashMap<u64, u32>,
}

impl Notifier {
    /// The slots that are filled, each with its id.
    pub closed spec fn slots(&self) -> Map<Category, u32> {
        Map::new(
            |category: Category| self.active_notifications@.contains_key(category.spec_key()),
            |category: Category| self.active_notifications@[category.spec_key()],
        )
    }

    /// The id that the next notification of a category replaces.
    pub open spec fn spec_id_of(&self, category: Category) -> u32 {
        slot_id(self.slots(), category)
    }

    /// A manager with every slot empty.
    pub fn new() -> (notifier: Self)
        ensures
            notifier.slots() == Map::<Category, u32>::empty(),
    {
        let notifier = Notifier { active_notifications: HashMap::new() };
        assert(notifier.slots() =~= Map::<Category, u32>::empty());
        notifier
    }

    #[verifier::when_used_as_spec(spec_id_of)]
    pub fn id_of(&self, category: Category) -> (id: u32)
        ensures
            id == self.spec_id_of(category),
    {
        let key = category.key();
        match self.active_notifications.get(&key) {
            Some(id) => *id,
            None => 0,
        }
    }

    /// The notification for a volume. It replaces the volume notification
    /// that is on screen, if there is one.
    pub fn volume_notification(&self, volume: &Volume) -> (request: NotificationBuilder)
        ensures
            request@ == volume_notification(self.id_of(Category::Volume), *volume),
    {
        let id = self.id_of(Category::Volume);
        let builder = notify().with_id(id);
        let icon = VolumeBucket::from_volume(volume).icon();
        let summary = volume_summary(volume);
        match volume_progress(volume) {
            None => builder.with_summary(summary.as_str()).with_icon(icon),
            Some(value) => {
                builder.with_summary(summary.as_str()).with_progress(value).with_icon(icon)
            },
        }
    }

    /// The notification for a change of the default device.
    pub fn device_change_notification(&self) -> (request: NotificationBuilder)
        ensures
            request@ == device_change_notification(self.id_of(Category::DeviceChange)),
    {
        let id = self.id_of(Category::DeviceChange);
        notify().with_urgency(Urgency::Normal).with_summary("Device changed").with_id(id)
    }

    /// The notification for a charge state.
    pub fn battery_state_notification(&self, state: BatteryState) -> (request:
        NotificationBuilder)
        ensures
            request@ == battery_state_notification(
                self.id_of(Category::BatteryState(state)),
                state,
            ),
    {
        let id = self.id_of(Category::BatteryState(state));
        let summary = battery_state_summary(state);
        let icon = battery_state_icon(state);
        notify().with_summary(summary).with_icon(icon).with_id(id)
    }

    /// The notification for a battery level.
    pub fn battery_level_notification(&self, level: BatteryLevel) -> (request:
        NotificationBuilder)
        ensures
            request@ == battery_level_notification(
                self.id_of(Category::BatteryLevel(level)),
                level,
            ),
    {
        let id = self.id_of(Category::BatteryLevel(level));
        let summary = battery_level_summary(level);
        let icon = battery_level_icon(level);
        let urgency = battery_level_urgency(level);
        notify().with_summary(summary).with_icon(icon).with_urgency(urgency).with_id(id)
    }

    /// The notification for the power source.
    pub fn power_source_notification(&self, on_battery: bool) -> (request:
        NotificationBuilder)
        ensures
            request@ == power_source_notification(
                self.id_of(Category::OnBattery(on_battery)),
                on_battery,
            ),
    {
        let id = self.id_of(Category::OnBattery(on_battery));
        let summary = power_source_summary(on_battery);
        let icon = power_source_icon(on_battery);
        notify().with_summary(summary).with_icon(icon).with_id(id)
    }

    /// The notification that tells of a subject. It replaces the
    /// notification that is on screen for the subject's category, if there
    /// is one.
    pub fn notification(&self, subject: Subject) -> (request: NotificationBuilder)
        ensures
            request@ == notification_for(self.id_of(subject.category()), subject),
    {
        match subject {
            Subject::Volume(volume) => self.volume_notification(&volume),
            Subject::DeviceChange => self.device_change_notification(),
            Subject::BatteryState(state) => self.battery_state_notification(state),
            Subject::BatteryLevel(level) => self.battery_level_notification(level),
            Subject::OnBattery(on_battery) => self.power_source_notification(on_battery),
        }
    }

    /// Puts the id that the notification service returned into the slot of
    /// the category, whatever was there. The other slots stay as they are.
    pub fn record(&mut self, category: Category, new_id: u32)
        ensures
            final(self).slots() == old(self).slots().insert(category, new_id),
    {
        let key = category.key();
        self.active_notifications.insert(key, new_id);
        proof {
            assert forall|other: Category| other.spec_key() == key implies other == category by {
                Category::key_is_injective(other, category);
            }
            assert(self.slots() =~= old(self).slots().insert(category, new_id));
        }
    }
}

} // verus!
