//! The dispatcher: it takes one event at a time and says what is to be done
//! for it. The program around it does what is asked (it waits for the next
//! event, asks the mixer for the volume, sends a notification) and hands
//! back what came of it.

use vstd::prelude::*;
use crate::content::notification_for;
use crate::event::{Category, Event, Subject};
use crate::notifier::{last_id, replaces_the_last_id, slot_id, slots_after, Notifier};
use crate::notify::{call_of, NotificationBuilder, NotificationView, NotifyCall};
use crate::pulse::{QueryError, Volume};

verus! {

/// The notification service did not take a notification.
#[derive(Debug, PartialEq, Eq)]
pub struct NotifyError {
    /// What the service said.
    pub message: String,
}

/// What ends the dispatcher before the events have run out.
#[derive(Debug, PartialEq, Eq)]
pub enum Error {
    /// The volume could not be queried after it had changed.
    Query(QueryError),
    /// A notification could not be sent.
    Notify(NotifyError),
}

/// The dispatcher between two events.
#[derive(Debug)]
pub struct SysNotifier {
    notifier: Notifier,
    last_volume: Option<Volume>,
}

/// What a [`SysNotifier`] knows: the id in each filled slot, and the volume
/// that was last notified.
pub struct SysView {
    pub slots: Map<Category, u32>,
    pub last_volume: Option<Volume>,
}

/// The dispatcher while the mixer is asked for the volume.
#[derive(Debug)]
pub struct VolumeQuery {
    waiting: SysNotifier,
}

/// The dispatcher while a notification is with the notification service.
#[derive(Debug)]
pub struct PendingSend {
    waiting: SysNotifier,
    subject: Subject,
}

/// What a [`PendingSend`] holds: the dispatcher as it was before the
/// notification, and what the notification tells of.
pub struct SendView {
    pub state: SysView,
    pub subject: Subject,
}

/// What is to be done next.
#[derive(Debug)]
pub enum Step {
    /// Wait for the next event and hand it in.
    Receive(SysNotifier),
    /// Ask the mixer for the volume of the default sink and hand in the
    /// answer.
    QueryVolume(VolumeQuery),
    /// Send the notification and hand in the id that came back.
    Send(PendingSend),
    /// Stop: the events have run out, or a query or a notification failed.
    Done(Result<(), Error>),
}

/// A [`Step`] over what its parts know.
pub enum StepView {
    Receive(SysView),
    QueryVolume(SysView),
    Send(SendView),
    Done(Result<(), Error>),
}

impl View for SysNotifier {
    type V = SysView;

    closed spec fn view(&self) -> SysView {
        SysView { slots: self.notifier.slots(), last_volume: self.last_volume }
    }
}

impl View for VolumeQuery {
    type V = SysView;

    closed spec fn view(&self) -> SysView {
        self.waiting@
    }
}

impl View for PendingSend {
    type V = SendView;

    closed spec fn view(&self) -> SendView {
        SendView { state: self.waiting@, subject: self.subject }
    }
}

impl View for Step {
    type V = StepView;

    open spec fn view(&self) -> StepView {
        match self {
            Step::Receive(state) => StepView::Receive(state@),
            Step::QueryVolume(query) => StepView::QueryVolume(query@),
            Step::Send(send) => StepView::Send(send@),
            Step::Done(result) => StepView::Done(*result),
        }
    }
}

impl SysView {
    /// The dispatcher that has seen nothing yet: every slot is empty and no
    /// volume has been notified.
    pub open spec fn initial() -> SysView {
        SysView { slots: Map::empty(), last_volume: None }
    }

    /// What an event leads to. When the events have run out, the dispatcher
    /// stops without an error. A change of volume has the mixer asked. A
    /// change of the default device, a charge state, a battery level and a
    /// power source are notified, each one. A battery percentage is passed
    /// over.
    pub open spec fn on_event(self, received: Option<Event>) -> StepView {
        match received {
            None => StepView::Done(Ok(())),
            Some(Event::VolumeChanged) => StepView::QueryVolume(self),
            Some(event) => match event.spec_subject() {
                Some(subject) => StepView::Send(SendView { state: self, subject }),
                None => StepView::Receive(self),
            },
        }
    }

    /// What the answer of the mixer leads to. A failed query stops the
    /// dispatcher. A volume that differs from the one last notified, in
    /// value or in the mute flag, is notified; the volume that was last
    /// notified is passed over.
    pub open spec fn on_volume(self, answer: Result<Volume, QueryError>) -> StepView {
        match answer {
            Err(error) => StepView::Done(Err(Error::Query(error))),
            Ok(volume) => if self.last_volume == Some(volume) {
                StepView::Receive(self)
            } else {
                StepView::Send(SendView { state: self, subject: Subject::Volume(volume) })
            },
        }
    }
}

impl SysView {
    /// Whether a change of volume is notified when the mixer answers with
    /// `volume`.
    pub open spec fn notifies_volume(self, volume: Volume) -> bool {
        match self.on_event(Some(Event::VolumeChanged)) {
            StepView::QueryVolume(query) => query.on_volume(Ok(volume)) is Send,
            _ => false,
        }
    }

    /// The dispatcher after a change of volume, where the mixer answers
    /// with `volume` and the notification service, if it is asked, with
    /// `id`.
    pub open spec fn after_volume(self, volume: Volume, id: u32) -> SysView {
        match self.on_event(Some(Event::VolumeChanged)) {
            StepView::QueryVolume(query) => match query.on_volume(Ok(volume)) {
                StepView::Send(send) => match send.on_sent(Ok(id)) {
                    StepView::Receive(next) => next,
                    _ => self,
                },
                _ => self,
            },
            _ => self,
        }
    }

    /// How many notifications a run of changes of volume leads to, each
    /// change given by the volume that the mixer answers with and the id
    /// that the notification service would return.
    pub open spec fn volume_notifications(self, answers: Seq<(Volume, u32)>) -> nat
        decreases answers.len(),
    {
        if answers.len() == 0 {
            0
        } else {
            let (volume, id) = answers[0];
            let sent: nat = if self.notifies_volume(volume) {
                1
            } else {
                0
            };
            sent + self.after_volume(volume, id).volume_notifications(answers.drop_first())
        }
    }

    /// The dispatcher after a run of changes of volume.
    pub open spec fn after_volumes(self, answers: Seq<(Volume, u32)>) -> SysView
        decreases answers.len(),
    {
        if answers.len() == 0 {
            self
        } else {
            let (volume, id) = answers[0];
            self.after_volume(volume, id).after_volumes(answers.drop_first())
        }
    }

    /// Changes of volume that all find the volume which was last notified
    /// lead to no notification and leave the dispatcher as it is.
    pub proof fn unchanged_volume_is_silent(self, answers: Seq<(Volume, u32)>, volume: Volume)
        requires
            self.last_volume == Some(volume),
            forall|i: int| 0 <= i < answers.len() ==> (#[trigger] answers[i]).0 == volume,
        ensures
            self.volume_notifications(answers) == 0,
            self.after_volumes(answers) == self,
        decreases answers.len(),
    {
        if answers.len() > 0 {
            let rest = answers.drop_first();
            assert(answers[0].0 == volume);
            assert forall|i: int| 0 <= i < rest.len() implies (#[trigger] rest[i]).0 == volume by {
                assert(rest[i] == answers[i + 1]);
            }
            self.unchanged_volume_is_silent(rest, volume);
        }
    }

    /// Changes of volume that all find the same volume lead to one
    /// notification if that volume was not the one last notified, and to
    /// none after it.
    pub proof fn same_volume_notifies_once(self, answers: Seq<(Volume, u32)>, volume: Volume)
        requires
            forall|i: int| 0 <= i < answers.len() ==> (#[trigger] answers[i]).0 == volume,
        ensures
            self.volume_notifications(answers) == if answers.len() > 0 && self.last_volume
                != Some(volume) {
                1nat
            } else {
                0nat
            },
        decreases answers.len(),
    {
        if answers.len() > 0 {
            let rest = answers.drop_first();
            assert(answers[0].0 == volume);
            assert forall|i: int| 0 <= i < rest.len() implies (#[trigger] rest[i]).0 == volume by {
                assert(rest[i] == answers[i + 1]);
            }
            let next = self.after_volume(volume, answers[0].1);
            assert(next.last_volume == Some(volume));
            next.unchanged_volume_is_silent(rest, volume);
        }
    }
}

impl SendView {
    /// The notification that is sent: it replaces the one whose id is in
    /// the slot of its category.
    pub open spec fn request(self) -> NotificationView {
        notification_for(slot_id(self.state.slots, self.subject.spec_category()), self.subject)
    }

    /// What the answer of the notification service leads to. A failed send
    /// stops the dispatcher. An id goes into the slot of the category,
    /// whatever was there, and a volume that was notified becomes the
    /// volume last notified.
    pub open spec fn on_sent(self, answer: Result<u32, NotifyError>) -> StepView {
        match answer {
            Err(error) => StepView::Done(Err(Error::Notify(error))),
            Ok(id) => StepView::Receive(
                SysView {
                    slots: self.state.slots.insert(self.subject.spec_category(), id),
                    last_volume: match self.subject {
                        Subject::Volume(volume) => Some(volume),
                        _ => self.state.last_volume,
                    },
                },
            ),
        }
    }
}

/// The categories of a run of notifications, each with the id that was
/// returned for it.
pub open spec fn categories_of(sent: Seq<(Subject, u32)>) -> Seq<(Category, u32)> {
    sent.map_values(|one: (Subject, u32)| (one.0.spec_category(), one.1))
}

impl SysView {
    /// The dispatcher after a run of notifications, each given by what it
    /// tells of and the id that the notification service returned for it.
    pub open spec fn after_sends(self, sent: Seq<(Subject, u32)>) -> SysView
        decreases sent.len(),
    {
        if sent.len() == 0 {
            self
        } else {
            let before = self.after_sends(sent.drop_last());
            let send = SendView { state: before, subject: sent.last().0 };
            match send.on_sent(Ok(sent.last().1)) {
                StepView::Receive(next) => next,
                _ => before,
            }
        }
    }

    /// After any run of notifications, the notification that is sent next
    /// replaces the id that was returned for the last one of its category,
    /// whatever was sent for other categories in between; where the run
    /// holds none of its category, it replaces what it would have replaced
    /// before the run.
    pub proof fn request_replaces_the_last_id(self, sent: Seq<(Subject, u32)>, subject: Subject)
        ensures
            self.after_sends(sent).slots == slots_after(self.slots, categories_of(sent)),
            (SendView { state: self.after_sends(sent), subject }).request().id == match last_id(
                categories_of(sent),
                subject.spec_category(),
            ) {
                Some(id) => id,
                None => slot_id(self.slots, subject.spec_category()),
            },
    {
        self.slots_follow_the_sends(sent);
        replaces_the_last_id(self.slots, categories_of(sent), subject.spec_category());
    }

    proof fn slots_follow_the_sends(self, sent: Seq<(Subject, u32)>)
        ensures
            self.after_sends(sent).slots == slots_after(self.slots, categories_of(sent)),
        decreases sent.len(),
    {
        if sent.len() > 0 {
            self.slots_follow_the_sends(sent.drop_last());
            assert(categories_of(sent).drop_last() =~= categories_of(sent.drop_last()));
        }
    }

    /// Notifications that tell of no volume leave the volume that was last
    /// notified as it is.
    pub proof fn other_notifications_keep_the_volume(self, sent: Seq<(Subject, u32)>)
        requires
            forall|i: int| 0 <= i < sent.len() ==> !((#[trigger] sent[i]).0 is Volume),
        ensures
            self.after_sends(sent).last_volume == self.last_volume,
        decreases sent.len(),
    {
        if sent.len() > 0 {
            let before = sent.drop_last();
            assert forall|i: int| 0 <= i < before.len() implies !((#[trigger] before[i]).0
                is Volume) by {
                assert(before[i] == sent[i]);
            }
            self.other_notifications_keep_the_volume(before);
            assert(!(sent[sent.len() - 1].0 is Volume));
        }
    }
}

impl SendView {
    /// Once a notification has been sent and an id returned for it, the
    /// next notification of the same category replaces that id, and the
    /// next notification of any other category replaces what it would have
    /// replaced before.
    pub proof fn next_send_replaces(self, id: u32, later: Subject)
        ensures
            self.on_sent(Ok(id)) matches StepView::Receive(next) && (SendView {
                state: next,
                subject: later,
            }).request().id == if later.spec_category() == self.subject.spec_category() {
                id
            } else {
                (SendView { state: self.state, subject: later }).request().id
            },
    {
    }
}

impl SysNotifier {
    /// A dispatcher that has seen nothing yet.
    pub fn new() -> (state: Self)
        ensures
            state@ == SysView::initial(),
    {
        SysNotifier { notifier: Notifier::new(), last_volume: None }
    }

    /// The id that the next notification of a category replaces; 0 where
    /// none is on screen.
    pub fn id_of(&self, category: Category) -> (id: u32)
        ensures
            id == slot_id(self@.slots, category),
    {
        self.notifier.id_of(category)
    }

    /// The volume that was last notified.
    pub fn last_volume(&self) -> (volume: Option<Volume>)
        ensures
            volume == self@.last_volume,
    {
        self.last_volume
    }

    /// Takes the next event, or `None` when no event will come any more.
    pub fn run(self, received: Option<Event>) -> (step: Step)
        ensures
            step@ == self@.on_event(received),
    {
        match received {
            None => Step::Done(Ok(())),
            Some(Event::VolumeChanged) => Step::QueryVolume(VolumeQuery { waiting: self }),
            Some(event) => match event.subject() {
                Some(subject) => Step::Send(PendingSend { waiting: self, subject }),
                None => Step::Receive(self),
            },
        }
    }
}

impl VolumeQuery {
    /// Takes the answer of the mixer.
    pub fn answer(self, answer: Result<Volume, QueryError>) -> (step: Step)
        ensures
            step@ == self@.on_volume(answer),
    {
        match answer {
            Err(error) => Step::Done(Err(Error::Query(error))),
            Ok(volume) => {
                let unchanged = match self.waiting.last_volume {
                    Some(last) => last.value == volume.value && last.muted == volume.muted,
                    None => false,
                };
                if unchanged {
                    Step::Receive(self.waiting)
                } else {
                    Step::Send(PendingSend { waiting: self.waiting, subject: Subject::Volume(volume) })
                }
            },
        }
    }
}

impl PendingSend {
    /// What the notification tells of.
    pub fn subject(&self) -> (subject: Subject)
        ensures
            subject == self@.subject,
    {
        self.subject
    }

    /// The notification to send.
    pub fn request(&self) -> (request: NotificationBuilder)
        ensures
            request@ == self@.request(),
    {
        self.waiting.notifier.notification(self.subject)
    }

    /// The call of the notification service that sends the notification.
    pub fn call(&self) -> (call: NotifyCall)
        ensures
            call@ == call_of(self@.request()),
    {
        self.request().send()
    }

    /// Takes the answer of the notification service: the id of the
    /// notification, or the error.
    pub fn sent(self, answer: Result<u32, NotifyError>) -> (step: Step)
        ensures
            step@ == self@.on_sent(answer),
    {
        match answer {
            Err(error) => Step::Done(Err(Error::Notify(error))),
            Ok(id) => {
                let PendingSend { waiting, subject } = self;
                let SysNotifier { mut notifier, last_volume } = waiting;
                notifier.record(subject.category(), id);
                let last_volume = match subject {
                    Subject::Volume(volume) => Some(volume),
                    _ => last_volume,
                };
                Step::Receive(SysNotifier { notifier, last_volume })
            },
        }
    }
}

} // verus!
