//! Watching one mailbox: what to ask of the mail server next, and what to
//! tell the user about the unseen messages it reports.

use vstd::prelude::*;
use vstd::string::*;
use mailparse::MailParseError;
use crate::dbus_notify::{unseen_notification, NotificationModel, NotificationRequest};
use crate::mail::{first_header_value, header_lookup, lookup_of, HeaderLookup};
use crate::summary::{distinct, unread_text, MessageSummary, UnseenSet};
use crate::text::decimal;
use crate::watcher::{settle, step, Event, Phase, WatchError, Watcher};

verus! {

/// The TCP port of IMAP over TLS.
pub const IMAPS_PORT: u16 = 993;

/// The search that lists the unseen messages of the selected mailbox.
pub const UNSEEN_QUERY: &'static str = "UNSEEN";

/// What is retrieved of each unseen message: the whole message.
pub const MESSAGE_ITEMS: &'static str = "RFC822";

/// The header that a message is reported by.
pub const SUBJECT: &'static str = "Subject";

/// Why the subjects of the unseen messages could not be had.
#[derive(Debug)]
pub enum FetchError {
    /// The retrieval failed; the text says how.
    Retrieval(String),
    /// The server returned no message at all.
    NoMessages,
    /// A message came without its content.
    MissingBody,
    /// A message could not be parsed.
    Malformed(MailParseError),
    /// A message has no subject.
    NoSubject,
}

/// Mathematical content of a [`FetchError`].
pub enum FetchFailure {
    Retrieval(Seq<char>),
    NoMessages,
    MissingBody,
    Malformed,
    NoSubject,
}

impl View for FetchError {
    type V = FetchFailure;

    open spec fn view(&self) -> FetchFailure {
        match self {
            FetchError::Retrieval(reason) => FetchFailure::Retrieval(reason@),
            FetchError::NoMessages => FetchFailure::NoMessages,
            FetchError::MissingBody => FetchFailure::MissingBody,
            FetchError::Malformed(_) => FetchFailure::Malformed,
            FetchError::NoSubject => FetchFailure::NoSubject,
        }
    }
}

/// What a retrieval returned: the content of each message, where it came
/// with any, or the reason of the failure.
pub type Retrieved = Result<Vec<Option<Vec<u8>>>, String>;

/// Mathematical content of a [`Retrieved`].
pub type RetrievedModel = Result<Seq<Option<Seq<u8>>>, Seq<char>>;

/// The content of one retrieved message.
pub open spec fn body_model(body: Option<Vec<u8>>) -> Option<Seq<u8>> {
    match body {
        Some(bytes) => Some(bytes@),
        None => None,
    }
}

/// The contents of the retrieved messages.
pub open spec fn bodies_model(bodies: Seq<Option<Vec<u8>>>) -> Seq<Option<Seq<u8>>> {
    Seq::new(bodies.len(), |i: int| body_model(bodies[i]))
}

/// The content of a retrieval.
pub open spec fn retrieved_model(retrieved: Retrieved) -> RetrievedModel {
    match retrieved {
        Ok(bodies) => Ok(bodies_model(bodies@)),
        Err(reason) => Err(reason@),
    }
}

/// The content of a subject or of the reason why there is none.
pub open spec fn subject_model(subject: Result<String, FetchError>) -> Result<
    Seq<char>,
    FetchFailure,
> {
    match subject {
        Ok(text) => Ok(text@),
        Err(error) => Err(error@),
    }
}

/// The content of a summary or of the reason why there is none.
pub open spec fn summary_model(summary: Result<MessageSummary, FetchError>) -> Result<
    Seq<Seq<char>>,
    FetchFailure,
> {
    match summary {
        Ok(subjects) => Ok(subjects@),
        Err(error) => Err(error@),
    }
}

/// The subject that a lookup of the subject header gives.
pub open spec fn subject_in(found: HeaderLookup) -> Result<Seq<char>, FetchFailure> {
    match found {
        HeaderLookup::Malformed => Err(FetchFailure::Malformed),
        HeaderLookup::Absent => Err(FetchFailure::NoSubject),
        HeaderLookup::Found(subject) => Ok(subject),
    }
}

/// The subject of one retrieved message.
pub open spec fn subject_of(body: Option<Seq<u8>>) -> Result<Seq<char>, FetchFailure> {
    match body {
        None => Err(FetchFailure::MissingBody),
        Some(message) => subject_in(header_lookup(message, SUBJECT@)),
    }
}

/// The subjects of the retrieved messages, one for each and in their
/// order, or the failure of the first message that has none.
pub open spec fn subjects_of(bodies: Seq<Option<Seq<u8>>>) -> Result<Seq<Seq<char>>, FetchFailure>
    decreases bodies.len(),
{
    if bodies.len() == 0 {
        Ok(Seq::empty())
    } else {
        match subjects_of(bodies.drop_last()) {
            Err(failure) => Err(failure),
            Ok(subjects) => match subject_of(bodies.last()) {
                Err(failure) => Err(failure),
                Ok(subject) => Ok(subjects.push(subject)),
            },
        }
    }
}

/// The summary that a retrieval gives: the different subjects of its
/// messages. There is none where the retrieval failed, where it returned
/// no message, or where one of the messages has no subject to show.
pub open spec fn summary_of(retrieved: RetrievedModel) -> Result<Seq<Seq<char>>, FetchFailure> {
    match retrieved {
        Err(reason) => Err(FetchFailure::Retrieval(reason)),
        Ok(bodies) => if bodies.len() == 0 {
            Err(FetchFailure::NoMessages)
        } else {
            match subjects_of(bodies) {
                Err(failure) => Err(failure),
                Ok(subjects) => Ok(distinct(subjects)),
            }
        },
    }
}

/// What the user is told after a search found `unseen` and the retrieval
/// of those messages came back as `retrieved`.
///
/// Nothing, where nothing is unseen. Else the notification names the
/// mailbox and the number of unseen messages, and shows the first subject
/// of the summary; where there is no summary, it shows the number of
/// unseen messages in its place.
pub open spec fn report_of(
    mailbox: Seq<char>,
    unseen: Seq<u32>,
    retrieved: RetrievedModel,
) -> Option<NotificationModel> {
    if unseen.len() == 0 {
        None
    } else {
        Some(
            unseen_notification(
                mailbox,
                unseen.len(),
                match summary_of(retrieved) {
                    Ok(subjects) => subjects,
                    Err(_) => seq![unread_text(unseen.len())],
                },
            ),
        )
    }
}

/// The content of a notification, if there is one.
pub open spec fn report_model(report: Option<NotificationRequest>) -> Option<NotificationModel> {
    match report {
        Some(request) => Some(request@),
        None => None,
    }
}

/// Once a message fails, the failure stands whatever follows it.
proof fn lemma_first_failure_stands(bodies: Seq<Option<Seq<u8>>>, k: int)
    requires
        0 <= k <= bodies.len(),
        subjects_of(bodies.take(k)) is Err,
    ensures
        subjects_of(bodies) == subjects_of(bodies.take(k)),
    decreases bodies.len(),
{
    if k == bodies.len() {
        assert(bodies.take(k) == bodies);
    } else {
        assert(bodies.drop_last().take(k) == bodies.take(k));
        lemma_first_failure_stands(bodies.drop_last(), k);
    }
}

/// The subject that the looked-up subject header gives, or the reason why
/// the message has none to show.
pub fn subject_from(found: Result<Option<String>, MailParseError>) -> (subject: Result<
    String,
    FetchError,
>)
    ensures
        subject_model(subject) == subject_in(lookup_of(found)),
{
    match found {
        Err(error) => Err(FetchError::Malformed(error)),
        Ok(None) => Err(FetchError::NoSubject),
        Ok(Some(subject)) => Ok(subject),
    }
}

/// The subject of one retrieved message.
pub fn message_subject(body: &Option<Vec<u8>>) -> (subject: Result<String, FetchError>)
    ensures
        subject_model(subject) == subject_of(body_model(*body)),
{
    match body {
        None => Err(FetchError::MissingBody),
        Some(message) => subject_from(first_header_value(message.as_slice(), SUBJECT)),
    }
}

/// Summarises the messages that a retrieval returned by their subjects.
///
/// There is a summary when the retrieval succeeded, returned at least one
/// message, and every message has a subject; it holds each subject once.
/// Otherwise the error says what was in the way, the first message that
/// has no subject to show deciding.
pub fn fetch_subject(retrieved: Retrieved) -> (summary: Result<MessageSummary, FetchError>)
    ensures
        summary_model(summary) == summary_of(retrieved_model(retrieved)),
{
    let bodies = match retrieved {
        Err(reason) => {
            return Err(FetchError::Retrieval(reason));
        },
        Ok(bodies) => bodies,
    };
    if bodies.len() == 0 {
        return Err(FetchError::NoMessages);
    }
    let ghost model = bodies_model(bodies@);
    proof {
        assert(model.take(1).drop_last() == Seq::<Option<Seq<u8>>>::empty());
        assert(model.take(1).last() == body_model(bodies@[0]));
        assert(subjects_of(model.take(1).drop_last()) == Ok::<Seq<Seq<char>>, FetchFailure>(
            Seq::empty(),
        ));
    }
    let first = match message_subject(&bodies[0]) {
        Err(error) => {
            proof {
                lemma_first_failure_stands(model, 1);
            }
            return Err(error);
        },
        Ok(subject) => subject,
    };
    let ghost mut subjects: Seq<Seq<char>> = seq![first@];
    proof {
        assert(Seq::<Seq<char>>::empty().push(first@) == subjects);
        assert(subjects.drop_last() == Seq::<Seq<char>>::empty());
        assert(distinct(subjects.drop_last()) == Seq::<Seq<char>>::empty());
        assert(distinct(subjects) == subjects);
    }
    let mut summary = MessageSummary::single(first);
    let mut i: usize = 1;
    while i < bodies.len()
        invariant
            1 <= i <= bodies@.len(),
            model == bodies_model(bodies@),
            retrieved_model(retrieved) == Ok::<Seq<Option<Seq<u8>>>, Seq<char>>(model),
            subjects_of(model.take(i as int)) == Ok::<Seq<Seq<char>>, FetchFailure>(subjects),
            summary@ == distinct(subjects),
        decreases bodies@.len() - i,
    {
        proof {
            assert(model.take(i as int + 1).drop_last() == model.take(i as int));
            assert(model.take(i as int + 1).last() == body_model(bodies@[i as int]));
        }
        match message_subject(&bodies[i]) {
            Err(error) => {
                proof {
                    lemma_first_failure_stands(model, i as int + 1);
                }
                return Err(error);
            },
            Ok(subject) => {
                proof {
                    assert(subjects.push(subject@).drop_last() == subjects);
                    subjects = subjects.push(subject@);
                }
                summary = summary.with(subject);
            },
        }
        i = i + 1;
    }
    proof {
        assert(model.take(bodies@.len() as int) == model);
    }
    Ok(summary)
}

/// Decides what to tell the user about the unseen messages of `mbox`,
/// once the search has found `unseen` and the retrieval of those messages
/// has come back as `retrieved`.
///
/// A retrieval that gives no summary does not stand in the way: the
/// notification then shows the number of unseen messages instead of a
/// subject.
pub fn list_unseen(mbox: &str, unseen: &UnseenSet, retrieved: Retrieved) -> (report: Option<
    NotificationRequest,
>)
    ensures
        report_model(report) == report_of(mbox@, unseen@, retrieved_model(retrieved)),
{
    let count = unseen.len();
    if count == 0 {
        None
    } else {
        let summary = match fetch_subject(retrieved) {
            Ok(subjects) => subjects,
            Err(_) => MessageSummary::fallback(count),
        };
        Some(NotificationRequest::unseen(mbox, count, &summary))
    }
}

/// Moves the watcher of a mailbox on by one event: the outcome of what it
/// asked for last.
///
/// The watcher connects, selects its mailbox and looks for unseen
/// messages; where there are any, it has them retrieved and the user
/// notified. A watcher that looks once then closes its session and ends.
/// Every other watcher waits for news and looks again, and opens a new
/// session whenever the wait fails. A failure to connect ends a watcher
/// only if it is its first attempt; a failure to select its mailbox
/// always does.
pub fn notify_idle(watcher: Watcher, event: Event) -> (next: Watcher)
    ensures
        next@ == step(watcher@, event@),
{
    let Watcher { mailbox, persistence, phase } = watcher;
    let phase = match phase {
        Phase::Connecting { first } => match event {
            Event::Connect(Ok(_)) => Phase::Selecting,
            Event::Connect(Err(reason)) => if first {
                Phase::Terminated { outcome: Err(WatchError::Connection(reason)) }
            } else {
                Phase::Connecting { first: false }
            },
            _ => Phase::Connecting { first },
        },
        Phase::Selecting => match event {
            Event::Select(Ok(_)) => Phase::Polling,
            Event::Select(Err(reason)) => Phase::Terminated {
                outcome: Err(WatchError::Selection(reason)),
            },
            _ => Phase::Selecting,
        },
        Phase::Polling => match event {
            Event::Search(Ok(ids)) => {
                let unseen = UnseenSet::from_ids(&ids);
                if unseen.is_empty() {
                    settle(persistence)
                } else {
                    Phase::Fetching { unseen }
                }
            },
            Event::Search(Err(_)) => settle(persistence),
            _ => Phase::Polling,
        },
        Phase::Fetching { unseen } => match event {
            Event::Fetch(retrieved) => match list_unseen(mailbox.as_str(), &unseen, retrieved) {
                Some(request) => Phase::Notifying { request },
                None => settle(persistence),
            },
            _ => Phase::Fetching { unseen },
        },
        Phase::Notifying { request } => match event {
            Event::Notify(_) => settle(persistence),
            _ => Phase::Notifying { request },
        },
        Phase::Idling => match event {
            Event::Idle(Ok(_)) => Phase::Polling,
            Event::Idle(Err(_)) => Phase::Connecting { first: false },
            _ => Phase::Idling,
        },
        Phase::Closing => match event {
            Event::Logout(Ok(_)) => Phase::Terminated { outcome: Ok(()) },
            Event::Logout(Err(reason)) => Phase::Terminated {
                outcome: Err(WatchError::Logout(reason)),
            },
            _ => Phase::Closing,
        },
        Phase::Terminated { outcome } => Phase::Terminated { outcome },
    };
    Watcher { mailbox, persistence, phase }
}

/// Messages that all have the same subject are summarised by that one
/// subject.
pub proof fn lemma_shared_subject_collapses(bodies: Seq<Option<Seq<u8>>>, subject: Seq<char>)
    requires
        bodies.len() > 0,
        forall|i: int| 0 <= i < bodies.len() ==> subject_of(#[trigger] bodies[i]) == Ok::<
            Seq<char>,
            FetchFailure,
        >(subject),
    ensures
        summary_of(Ok(bodies)) == Ok::<Seq<Seq<char>>, FetchFailure>(seq![subject]),
        summary_of(Ok(bodies))->Ok_0.len() == 1,
    decreases bodies.len(),
{
    let init = bodies.drop_last();
    assert(subject_of(bodies.last()) == Ok::<Seq<char>, FetchFailure>(subject)) by {
        assert(bodies.last() == bodies[bodies.len() - 1]);
    }
    if init.len() == 0 {
        assert(subjects_of(init) == Ok::<Seq<Seq<char>>, FetchFailure>(Seq::empty()));
        assert(Seq::<Seq<char>>::empty().push(subject) == seq![subject]);
        assert(seq![subject].drop_last() == Seq::<Seq<char>>::empty());
        assert(distinct(seq![subject].drop_last()) == Seq::<Seq<char>>::empty());
    } else {
        assert forall|i: int| 0 <= i < init.len() implies subject_of(#[trigger] init[i]) == Ok::<
            Seq<char>,
            FetchFailure,
        >(subject) by {
            assert(init[i] == bodies[i]);
        }
        lemma_shared_subject_collapses(init, subject);
        let before = subjects_of(init)->Ok_0;
        assert(distinct(before) == seq![subject]);
        assert(before.push(subject).drop_last() == before);
        assert(seq![subject][0] == subject);
        assert(seq![subject].contains(subject));
    }
}

/// Where the retrieval of a non-empty set of unseen messages gives no
/// summary, the notification shows the word `unread` and the number of
/// unseen messages.
pub proof fn lemma_fallback_body(mailbox: Seq<char>, unseen: Seq<u32>, retrieved: RetrievedModel)
    requires
        unseen.len() > 0,
        summary_of(retrieved) is Err,
    ensures
        report_of(mailbox, unseen, retrieved) is Some,
        report_of(mailbox, unseen, retrieved)->0.body == "unread "@ + decimal(unseen.len()),
{
}

} // verus!
