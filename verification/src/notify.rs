//! The notification request: a fluently configured value that is turned
//! into one call of the notification service.

use vstd::prelude::*;
use vstd::string::*;

verus! {

/// How pressing a notification is.
#[derive(Clone, Copy, Debug, PartialEq, Eq, Structural)]
pub enum Urgency {
    Low,
    Normal,
    Critical,
}

impl Urgency {
    /// The byte that stands for the urgency on the wire.
    pub open spec fn spec_code(self) -> u8 {
        match self {
            Urgency::Low => 0,
            Urgency::Normal => 1,
            Urgency::Critical => 2,
        }
    }

    #[verifier::when_used_as_spec(spec_code)]
    pub fn code(self) -> (code: u8)
        ensures
            code == self.spec_code(),
    {
        match self {
            Urgency::Low => 0,
            Urgency::Normal => 1,
            Urgency::Critical => 2,
        }
    }
}

/// A notification that is being put together.
#[derive(Debug)]
pub struct NotificationBuilder {
    summary: String,
    body: String,
    progress: Option<i32>,
    icon: String,
    urgency: Urgency,
    id: u32,
}

/// What a [`NotificationBuilder`] holds.
pub struct NotificationView {
    pub summary: Seq<char>,
    pub body: Seq<char>,
    pub progress: Option<i32>,
    pub icon: Seq<char>,
    pub urgency: Urgency,
    pub id: u32,
}

impl NotificationView {
    /// The request that nothing has been said about yet: no text, no icon,
    /// no progress, low urgency, and no notification to replace.
    pub open spec fn blank() -> NotificationView {
        NotificationView {
            summary: Seq::empty(),
            body: Seq::empty(),
            progress: None,
            icon: Seq::empty(),
            urgency: Urgency::Low,
            id: 0,
        }
    }
}

impl View for NotificationBuilder {
    type V = NotificationView;

    closed spec fn view(&self) -> NotificationView {
        NotificationView {
            summary: self.summary@,
            body: self.body@,
            progress: self.progress,
            icon: self.icon@,
            urgency: self.urgency,
            id: self.id,
        }
    }
}

/// A value that goes with a hint.
#[derive(Clone, Copy, Debug, PartialEq, Eq, Structural)]
pub enum HintValue {
    U8(u8),
    I32(i32),
}

/// One entry of the hints that go with a notification.
#[derive(Debug, PartialEq, Eq)]
pub struct Hint {
    pub key: String,
    pub value: HintValue,
}

impl View for Hint {
    type V = (Seq<char>, HintValue);

    open spec fn view(&self) -> (Seq<char>, HintValue) {
        (self.key@, self.value)
    }
}

/// The one call of the notification service that a builder stands for.
#[derive(Debug, PartialEq, Eq)]
pub struct NotifyCall {
    pub app_name: String,
    pub replaces_id: u32,
    pub app_icon: String,
    pub summary: String,
    pub body: String,
    pub actions: Vec<String>,
    pub hints: Vec<Hint>,
    pub expire_timeout: i32,
}

/// What a [`NotifyCall`] holds.
pub struct NotifyCallView {
    pub app_name: Seq<char>,
    pub replaces_id: u32,
    pub app_icon: Seq<char>,
    pub summary: Seq<char>,
    pub body: Seq<char>,
    pub actions: Seq<Seq<char>>,
    pub hints: Seq<(Seq<char>, HintValue)>,
    pub expire_timeout: i32,
}

impl View for NotifyCall {
    type V = NotifyCallView;

    open spec fn view(&self) -> NotifyCallView {
        NotifyCallView {
            app_name: self.app_name@,
            replaces_id: self.replaces_id,
            app_icon: self.app_icon@,
            summary: self.summary@,
            body: self.body@,
            actions: self.actions@.map_values(|a: String| a@),
            hints: self.hints@.map_values(|h: Hint| h@),
            expire_timeout: self.expire_timeout,
        }
    }
}

/// The hints of a notification: its urgency always, its progress where it
/// has one.
pub open spec fn hints_of(urgency: Urgency, progress: Option<i32>) -> Seq<(Seq<char>, HintValue)> {
    let first = seq![("urgency"@, HintValue::U8(urgency.spec_code()))];
    match progress {
        Some(value) => first.push(("value"@, HintValue::I32(value))),
        None => first,
    }
}

/// The call that a notification is sent with: under this program's name,
/// without actions, and with the service left to choose when it expires.
pub open spec fn call_of(n: NotificationView) -> NotifyCallView {
    NotifyCallView {
        app_name: "SysNotifier"@,
        replaces_id: n.id,
        app_icon: n.icon,
        summary: n.summary,
        body: n.body,
        actions: Seq::empty(),
        hints: hints_of(n.urgency, n.progress),
        expire_timeout: -1i32,
    }
}

/// Starts a notification from the blank request.
pub fn notify() -> (builder: NotificationBuilder)
    ensures
        builder@ == NotificationView::blank(),
{
    NotificationBuilder {
        summary: String::new(),
        body: String::new(),
        progress: None,
        icon: String::new(),
        urgency: Urgency::Low,
        id: 0,
    }
}

impl Clone for NotificationBuilder {
    fn clone(&self) -> (copy: Self)
        ensures
            copy@ == self@,
    {
        NotificationBuilder {
            summary: self.summary.clone(),
            body: self.body.clone(),
            progress: self.progress,
            icon: self.icon.clone(),
            urgency: self.urgency,
            id: self.id,
        }
    }
}

impl NotificationBuilder {
    /// Sets the progress that the notification shows.
    pub fn with_progress(self, value: i32) -> (builder: Self)
        ensures
            builder@ == (NotificationView { progress: Some(value), ..self@ }),
    {
        NotificationBuilder {
            summary: self.summary,
            body: self.body,
            progress: Some(value),
            icon: self.icon,
            urgency: self.urgency,
            id: self.id,
        }
    }

    /// Sets the headline.
    pub fn with_summary(self, summary: &str) -> (builder: Self)
        ensures
            builder@ == (NotificationView { summary: summary@, ..self@ }),
    {
        NotificationBuilder {
            summary: String::from_str(summary),
            body: self.body,
            progress: self.progress,
            icon: self.icon,
            urgency: self.urgency,
            id: self.id,
        }
    }

    /// Sets the text under the headline.
    pub fn with_body(self, body: &str) -> (builder: Self)
        ensures
            builder@ == (NotificationView { body: body@, ..self@ }),
    {
        NotificationBuilder {
            summary: self.summary,
            body: String::from_str(body),
            progress: self.progress,
            icon: self.icon,
            urgency: self.urgency,
            id: self.id,
        }
    }

    /// Sets the icon, by its name in the icon theme.
    pub fn with_icon(self, icon: &str) -> (builder: Self)
        ensures
            builder@ == (NotificationView { icon: icon@, ..self@ }),
    {
        NotificationBuilder {
            summary: self.summary,
            body: self.body,
            progress: self.progress,
            icon: String::from_str(icon),
            urgency: self.urgency,
            id: self.id,
        }
    }

    /// Sets the urgency.
    pub fn with_urgency(self, urgency: Urgency) -> (builder: Self)
        ensures
            builder@ == (NotificationView { urgency: urgency, ..self@ }),
    {
        NotificationBuilder {
            summary: self.summary,
            body: self.body,
            progress: self.progress,
            icon: self.icon,
            urgency,
            id: self.id,
        }
    }

    /// Sets the notification that this one replaces; 0 asks for a new one.
    pub fn with_id(self, id: u32) -> (builder: Self)
        ensures
            builder@ == (NotificationView { id: id, ..self@ }),
    {
        NotificationBuilder {
            summary: self.summary,
            body: self.body,
            progress: self.progress,
            icon: self.icon,
            urgency: self.urgency,
            id,
        }
    }

    /// Turns the request into the call that the notification service is to
    /// receive. The builder stays as it is.
    pub fn send(&self) -> (call: NotifyCall)
        ensures
            call@ == call_of(self@),
    {
        let mut hints: Vec<Hint> = Vec::new();
        hints.push(Hint { key: String::from_str("urgency"), value: HintValue::U8(self.urgency.code()) });
        if let Some(value) = self.progress {
            hints.push(Hint { key: String::from_str("value"), value: HintValue::I32(value) });
        }
        let call = NotifyCall {
            app_name: String::from_str("SysNotifier"),
            replaces_id: self.id,
            app_icon: self.icon.clone(),
            summary: self.summary.clone(),
            body: self.body.clone(),
            actions: Vec::new(),
            hints,
            expire_timeout: -1,
        };
        assert(call@.actions =~= Seq::empty());
        assert(call@.hints =~= hints_of(self@.urgency, self@.progress));
        call
    }
}

} // verus!
