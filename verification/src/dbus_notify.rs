//! What a desktop notification says, and how it is worded for the
//! notification service on the session bus.

use vstd::prelude::*;
use vstd::string::*;
use crate::summary::MessageSummary;
use crate::text::{decimal, decimal_string, texts};

verus! {

/// The name under which notifications are sent.
pub const APPLICATION: &'static str = "imap-notify";

/// The sign that opens the title of a notification: a closed mailbox with
/// its flag up.
pub const ICON: &'static str = "\u{1F4EB}";

/// Bus name and interface of the notification service.
pub const NOTIFICATIONS_SERVICE: &'static str = "org.freedesktop.Notifications";

/// Object path of the notification service.
pub const NOTIFICATIONS_PATH: &'static str = "/org/freedesktop/Notifications";

/// The method of the service that shows a notification.
pub const NOTIFY_METHOD: &'static str = "Notify";

/// The hint under which the kind of a notification is given.
pub const CATEGORY_HINT: &'static str = "category";

/// The kind of every notification sent here.
pub const CATEGORY: &'static str = "email.arrived";

/// Milliseconds after which a notification expires.
pub const EXPIRE_TIMEOUT_MS: i32 = 10000;

/// Milliseconds to wait for the service to answer a call.
pub const CALL_TIMEOUT_MS: u64 = 2000;

/// What is reported where the session bus cannot be reached.
pub const NO_CONNECTION: &'static str = "cannot create a new connection";

/// What an error of the service is called where it has no name.
pub const UNNAMED_ERROR: &'static str =
    "Error while calling Notify on org.freedesktop.Notifications";

/// One notification for the user.
#[derive(Debug, PartialEq, Eq)]
pub struct NotificationRequest {
    pub application: String,
    pub title: String,
    pub body: String,
}

/// Mathematical content of a [`NotificationRequest`].
pub struct NotificationModel {
    pub application: Seq<char>,
    pub title: Seq<char>,
    pub body: Seq<char>,
}

impl View for NotificationRequest {
    type V = NotificationModel;

    open spec fn view(&self) -> NotificationModel {
        NotificationModel {
            application: self.application@,
            title: self.title@,
            body: self.body@,
        }
    }
}

/// The arguments of one call of `Notify`, in the order of the call. No
/// earlier notification is replaced, no icon is named, and no action is
/// offered.
#[derive(Debug, PartialEq, Eq)]
pub struct NotifyCall {
    pub app_name: String,
    pub replaces_id: u32,
    pub app_icon: String,
    pub summary: String,
    pub body: String,
    pub actions: Vec<String>,
    /// The value of the hint `category`, the only hint given.
    pub category: String,
    pub expire_timeout: i32,
}

/// Mathematical content of a [`NotifyCall`].
pub struct NotifyCallModel {
    pub app_name: Seq<char>,
    pub replaces_id: u32,
    pub app_icon: Seq<char>,
    pub summary: Seq<char>,
    pub body: Seq<char>,
    pub actions: Seq<Seq<char>>,
    pub category: Seq<char>,
    pub expire_timeout: i32,
}

impl View for NotifyCall {
    type V = NotifyCallModel;

    open spec fn view(&self) -> NotifyCallModel {
        NotifyCallModel {
            app_name: self.app_name@,
            replaces_id: self.replaces_id,
            app_icon: self.app_icon@,
            summary: self.summary@,
            body: self.body@,
            actions: texts(self.actions@),
            category: self.category@,
            expire_timeout: self.expire_timeout,
        }
    }
}

/// The title of the notification for `count` unseen messages in
/// `mailbox`: the icon, the mailbox, and the count in parentheses.
pub open spec fn title_text(mailbox: Seq<char>, count: nat) -> Seq<char> {
    ICON@ + seq![' '] + mailbox + seq![' ', '('] + decimal(count) + seq![')']
}

/// The notification for `count` unseen messages in `mailbox` whose
/// subjects are `summary`: its body is the first subject.
pub open spec fn unseen_notification(
    mailbox: Seq<char>,
    count: nat,
    summary: Seq<Seq<char>>,
) -> NotificationModel
    recommends
        summary.len() > 0,
{
    NotificationModel { application: APPLICATION@, title: title_text(mailbox, count), body: summary[0] }
}

/// The call that sends `request`.
pub open spec fn notify_call_of(request: NotificationModel) -> NotifyCallModel {
    NotifyCallModel {
        app_name: request.application,
        replaces_id: 0,
        app_icon: Seq::empty(),
        summary: request.title,
        body: request.body,
        actions: Seq::empty(),
        category: CATEGORY@,
        expire_timeout: EXPIRE_TIMEOUT_MS,
    }
}

/// The report of a failed call: the name of the error, or a stock phrase
/// where it has none, then a space, then its message, if it has one.
pub open spec fn notify_error_of(name: Option<Seq<char>>, message: Option<Seq<char>>) -> Seq<char> {
    (match name {
        Some(name) => name,
        None => UNNAMED_ERROR@,
    }) + seq![' '] + (match message {
        Some(message) => message,
        None => Seq::empty(),
    })
}

impl NotificationRequest {
    /// The notification that reports `count` unseen messages in `mailbox`.
    pub fn unseen(mailbox: &str, count: usize, summary: &MessageSummary) -> (request:
        NotificationRequest)
        ensures
            request@ == unseen_notification(mailbox@, count as nat, summary@),
    {
        proof {
            reveal_strlit(" ");
            reveal_strlit(" (");
            reveal_strlit(")");
            assert(" "@ == seq![' ']);
            assert(" ("@ == seq![' ', '(']);
            assert(")"@ == seq![')']);
        }
        let mut title = String::from_str(ICON);
        title.append(" ");
        title.append(mailbox);
        title.append(" (");
        let numeral = decimal_string(count as u64);
        title.append(numeral.as_str());
        title.append(")");
        NotificationRequest {
            application: String::from_str(APPLICATION),
            title,
            body: summary.first().clone(),
        }
    }

    /// The arguments with which the notification service is called.
    pub fn into_call(self) -> (call: NotifyCall)
        ensures
            call@ == notify_call_of(self@),
    {
        assert(texts(Seq::<String>::empty()) == Seq::<Seq<char>>::empty());
        NotifyCall {
            app_name: self.application,
            replaces_id: 0,
            app_icon: String::new(),
            summary: self.title,
            body: self.body,
            actions: Vec::new(),
            category: String::from_str(CATEGORY),
            expire_timeout: EXPIRE_TIMEOUT_MS,
        }
    }
}

impl Clone for NotificationRequest {
    fn clone(&self) -> (copy: NotificationRequest)
        ensures
            copy@ == self@,
    {
        NotificationRequest {
            application: self.application.clone(),
            title: self.title.clone(),
            body: self.body.clone(),
        }
    }
}

/// Words the failure of a call of the service from the name and the
/// message of the error, as far as it has them.
pub fn notify_error(name: Option<&str>, message: Option<&str>) -> (text: String)
    ensures
        text@ == notify_error_of(name.deep_view(), message.deep_view()),
{
    let mut text = match name {
        Some(name) => String::from_str(name),
        None => String::from_str(UNNAMED_ERROR),
    };
    proof {
        reveal_strlit(" ");
        assert(" "@ == seq![' ']);
    }
    text.append(" ");
    match message {
        Some(message) => text.append(message),
        None => {
            assert(text@ + Seq::<char>::empty() == text@);
        },
    }
    text
}

} // verus!
