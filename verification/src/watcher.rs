//! The life of a watcher of one mailbox, as a state machine.
//!
//! A watcher never talks to the mail server itself. In every phase but the
//! last it has one request for whoever drives it; the outcome of that
//! request comes back as an event, and the event decides the next phase.

use vstd::prelude::*;
use vstd::string::*;
use crate::config::Persistence;
use crate::dbus_notify::{NotificationModel, NotificationRequest};
use crate::imap_notify::{
    report_of,
    retrieved_model,
    Retrieved,
    RetrievedModel,
    MESSAGE_ITEMS,
    UNSEEN_QUERY,
};
use crate::summary::{distinct, sequence_set_text, UnseenSet};

verus! {

/// Why a watcher gave up.
#[derive(Debug, PartialEq, Eq)]
pub enum WatchError {
    /// The first connection to the server failed.
    Connection(String),
    /// The mailbox could not be selected.
    Selection(String),
    /// The session could not be closed.
    Logout(String),
}

/// Mathematical content of a [`WatchError`].
pub enum WatchFailure {
    Connection(Seq<char>),
    Selection(Seq<char>),
    Logout(Seq<char>),
}

impl View for WatchError {
    type V = WatchFailure;

    open spec fn view(&self) -> WatchFailure {
        match self {
            WatchError::Connection(reason) => WatchFailure::Connection(reason@),
            WatchError::Selection(reason) => WatchFailure::Selection(reason@),
            WatchError::Logout(reason) => WatchFailure::Logout(reason@),
        }
    }
}

/// How a request that returns nothing came out: done, or the reason of
/// its failure.
pub type Reply = Result<(), String>;

/// Mathematical content of a [`Reply`].
pub type ReplyModel = Result<(), Seq<char>>;

/// The content of a reply.
pub open spec fn reply_model(reply: Reply) -> ReplyModel {
    match reply {
        Ok(_) => Ok(()),
        Err(reason) => Err(reason@),
    }
}

/// The content of the end that a watcher came to.
pub open spec fn outcome_model(outcome: Result<(), WatchError>) -> Result<(), WatchFailure> {
    match outcome {
        Ok(_) => Ok(()),
        Err(error) => Err(error@),
    }
}

/// The content of what a search returned.
pub open spec fn found_model(found: Result<Vec<u32>, String>) -> Result<Seq<u32>, Seq<char>> {
    match found {
        Ok(ids) => Ok(ids@),
        Err(reason) => Err(reason@),
    }
}

/// Where a watcher stands.
#[derive(Debug, PartialEq, Eq)]
pub enum Phase {
    /// It has no session and asks for one. `first` says whether it never
    /// had one.
    Connecting { first: bool },
    /// It asks for its mailbox to be selected, read-only.
    Selecting,
    /// It asks which messages are unseen.
    Polling,
    /// It asks for the unseen messages.
    Fetching { unseen: UnseenSet },
    /// It asks for the user to be notified.
    Notifying { request: NotificationRequest },
    /// It asks to be woken when the mailbox changes.
    Idling,
    /// It asks for its session to be closed.
    Closing,
    /// It has stopped, for good.
    Terminated { outcome: Result<(), WatchError> },
}

/// Mathematical content of a [`Phase`].
pub enum PhaseModel {
    Connecting { first: bool },
    Selecting,
    Polling,
    Fetching { unseen: Seq<u32> },
    Notifying { request: NotificationModel },
    Idling,
    Closing,
    Terminated { outcome: Result<(), WatchFailure> },
}

impl View for Phase {
    type V = PhaseModel;

    open spec fn view(&self) -> PhaseModel {
        match self {
            Phase::Connecting { first } => PhaseModel::Connecting { first: *first },
            Phase::Selecting => PhaseModel::Selecting,
            Phase::Polling => PhaseModel::Polling,
            Phase::Fetching { unseen } => PhaseModel::Fetching { unseen: unseen@ },
            Phase::Notifying { request } => PhaseModel::Notifying { request: request@ },
            Phase::Idling => PhaseModel::Idling,
            Phase::Closing => PhaseModel::Closing,
            Phase::Terminated { outcome } => PhaseModel::Terminated {
                outcome: outcome_model(*outcome),
            },
        }
    }
}

/// What a watcher asks of whoever drives it.
#[derive(Debug, PartialEq, Eq)]
pub enum Request {
    /// Open a session: connect to the server and log in. A session that
    /// is still held is dropped as it is.
    Connect,
    /// Select the mailbox, read-only.
    Select { mailbox: String },
    /// Search the selected mailbox.
    Search { query: String },
    /// Retrieve the messages that `sequence_set` names.
    Fetch { sequence_set: String, items: String },
    /// Show a notification.
    Notify { request: NotificationRequest },
    /// Wait until the server reports a change or the keepalive interval
    /// has passed.
    Idle,
    /// Log out.
    Logout,
    /// Nothing more: the watcher has stopped.
    Stop { outcome: Result<(), WatchError> },
}

/// Mathematical content of a [`Request`].
pub enum RequestModel {
    Connect,
    Select { mailbox: Seq<char> },
    Search { query: Seq<char> },
    Fetch { sequence_set: Seq<char>, items: Seq<char> },
    Notify { request: NotificationModel },
    Idle,
    Logout,
    Stop { outcome: Result<(), WatchFailure> },
}

impl View for Request {
    type V = RequestModel;

    open spec fn view(&self) -> RequestModel {
        match self {
            Request::Connect => RequestModel::Connect,
            Request::Select { mailbox } => RequestModel::Select { mailbox: mailbox@ },
            Request::Search { query } => RequestModel::Search { query: query@ },
            Request::Fetch { sequence_set, items } => RequestModel::Fetch {
                sequence_set: sequence_set@,
                items: items@,
            },
            Request::Notify { request } => RequestModel::Notify { request: request@ },
            Request::Idle => RequestModel::Idle,
            Request::Logout => RequestModel::Logout,
            Request::Stop { outcome } => RequestModel::Stop { outcome: outcome_model(*outcome) },
        }
    }
}

/// How a request came out.
#[derive(Debug, PartialEq, Eq)]
pub enum Event {
    Connect(Reply),
    Select(Reply),
    /// The numbers of the unseen messages.
    Search(Result<Vec<u32>, String>),
    Fetch(Retrieved),
    Notify(Reply),
    /// `Ok` when the wait ended in good order, whatever ended it.
    Idle(Reply),
    Logout(Reply),
}

/// Mathematical content of an [`Event`].
pub enum EventModel {
    Connect(ReplyModel),
    Select(ReplyModel),
    Search(Result<Seq<u32>, Seq<char>>),
    Fetch(RetrievedModel),
    Notify(ReplyModel),
    Idle(ReplyModel),
    Logout(ReplyModel),
}

impl View for Event {
    type V = EventModel;

    open spec fn view(&self) -> EventModel {
        match self {
            Event::Connect(reply) => EventModel::Connect(reply_model(*reply)),
            Event::Select(reply) => EventModel::Select(reply_model(*reply)),
            Event::Search(found) => EventModel::Search(found_model(*found)),
            Event::Fetch(retrieved) => EventModel::Fetch(retrieved_model(*retrieved)),
            Event::Notify(reply) => EventModel::Notify(reply_model(*reply)),
            Event::Idle(reply) => EventModel::Idle(reply_model(*reply)),
            Event::Logout(reply) => EventModel::Logout(reply_model(*reply)),
        }
    }
}

/// The watcher of one mailbox.
#[derive(Debug, PartialEq, Eq)]
pub struct Watcher {
    pub mailbox: String,
    pub persistence: Persistence,
    pub phase: Phase,
}

/// Mathematical content of a [`Watcher`].
pub struct WatcherModel {
    pub mailbox: Seq<char>,
    pub persistence: Persistence,
    pub phase: PhaseModel,
}

impl View for Watcher {
    type V = WatcherModel;

    open spec fn view(&self) -> WatcherModel {
        WatcherModel { mailbox: self.mailbox@, persistence: self.persistence, phase: self.phase@ }
    }
}

/// A watcher before its first request.
pub open spec fn start(mailbox: Seq<char>, persistence: Persistence) -> WatcherModel {
    WatcherModel { mailbox, persistence, phase: PhaseModel::Connecting { first: true } }
}

/// The phase that follows a look at the mailbox: a watcher that looks
/// once closes its session, every other watcher waits for news.
pub open spec fn settled(persistence: Persistence) -> PhaseModel {
    match persistence {
        Persistence::OneShot => PhaseModel::Closing,
        _ => PhaseModel::Idling,
    }
}

/// Whether `event` is the outcome of the request that a watcher has in
/// `phase`.
pub open spec fn answers(phase: PhaseModel, event: EventModel) -> bool {
    match phase {
        PhaseModel::Connecting { .. } => event is Connect,
        PhaseModel::Selecting => event is Select,
        PhaseModel::Polling => event is Search,
        PhaseModel::Fetching { .. } => event is Fetch,
        PhaseModel::Notifying { .. } => event is Notify,
        PhaseModel::Idling => event is Idle,
        PhaseModel::Closing => event is Logout,
        PhaseModel::Terminated { .. } => false,
    }
}

/// The phase that follows `phase` on `event`, for the watcher of
/// `mailbox`.
///
/// - Connecting: a session leads to selecting. Without one, the watcher
///   gives up if it never had a session, and asks again otherwise.
/// - Selecting: success leads to polling; failure ends the watcher.
/// - Polling: unseen messages are fetched. With none, or when the search
///   failed, the look is over.
/// - Fetching: whatever came back, the user is notified.
/// - Notifying: the look is over, whether the notification was shown or
///   not.
/// - Idling: a wake in good order leads to polling again; a failure leads
///   back to connecting.
/// - Closing: the watcher ends, in error if the logout failed.
///
/// An event that does not answer the request of the phase changes
/// nothing.
pub open spec fn next_phase(
    mailbox: Seq<char>,
    persistence: Persistence,
    phase: PhaseModel,
    event: EventModel,
) -> PhaseModel {
    match phase {
        PhaseModel::Connecting { first } => match event {
            EventModel::Connect(Ok(_)) => PhaseModel::Selecting,
            EventModel::Connect(Err(reason)) => if first {
                PhaseModel::Terminated { outcome: Err(WatchFailure::Connection(reason)) }
            } else {
                PhaseModel::Connecting { first: false }
            },
            _ => phase,
        },
        PhaseModel::Selecting => match event {
            EventModel::Select(Ok(_)) => PhaseModel::Polling,
            EventModel::Select(Err(reason)) => PhaseModel::Terminated {
                outcome: Err(WatchFailure::Selection(reason)),
            },
            _ => phase,
        },
        PhaseModel::Polling => match event {
            EventModel::Search(Ok(ids)) => if distinct(ids).len() == 0 {
                settled(persistence)
            } else {
                PhaseModel::Fetching { unseen: distinct(ids) }
            },
            EventModel::Search(Err(_)) => settled(persistence),
            _ => phase,
        },
        PhaseModel::Fetching { unseen } => match event {
            EventModel::Fetch(retrieved) => match report_of(mailbox, unseen, retrieved) {
                Some(request) => PhaseModel::Notifying { request },
                None => settled(persistence),
            },
            _ => phase,
        },
        PhaseModel::Notifying { .. } => match event {
            EventModel::Notify(_) => settled(persistence),
            _ => phase,
        },
        PhaseModel::Idling => match event {
            EventModel::Idle(Ok(_)) => PhaseModel::Polling,
            EventModel::Idle(Err(_)) => PhaseModel::Connecting { first: false },
            _ => phase,
        },
        PhaseModel::Closing => match event {
            EventModel::Logout(Ok(_)) => PhaseModel::Terminated { outcome: Ok(()) },
            EventModel::Logout(Err(reason)) => PhaseModel::Terminated {
                outcome: Err(WatchFailure::Logout(reason)),
            },
            _ => phase,
        },
        PhaseModel::Terminated { .. } => phase,
    }
}

/// The watcher after `event`: mailbox and persistence stay, the phase
/// moves on.
pub open spec fn step(watcher: WatcherModel, event: EventModel) -> WatcherModel {
    WatcherModel {
        mailbox: watcher.mailbox,
        persistence: watcher.persistence,
        phase: next_phase(watcher.mailbox, watcher.persistence, watcher.phase, event),
    }
}

/// The watcher after a sequence of events.
pub open spec fn run(watcher: WatcherModel, events: Seq<EventModel>) -> WatcherModel
    decreases events.len(),
{
    if events.len() == 0 {
        watcher
    } else {
        step(run(watcher, events.drop_last()), events.last())
    }
}

/// The request that a watcher has.
pub open spec fn request_of(watcher: WatcherModel) -> RequestModel {
    match watcher.phase {
        PhaseModel::Connecting { .. } => RequestModel::Connect,
        PhaseModel::Selecting => RequestModel::Select { mailbox: watcher.mailbox },
        PhaseModel::Polling => RequestModel::Search { query: UNSEEN_QUERY@ },
        PhaseModel::Fetching { unseen } => RequestModel::Fetch {
            sequence_set: sequence_set_text(unseen),
            items: MESSAGE_ITEMS@,
        },
        PhaseModel::Notifying { request } => RequestModel::Notify { request },
        PhaseModel::Idling => RequestModel::Idle,
        PhaseModel::Closing => RequestModel::Logout,
        PhaseModel::Terminated { outcome } => RequestModel::Stop { outcome },
    }
}

impl Clone for WatchError {
    fn clone(&self) -> (copy: WatchError)
        ensures
            copy@ == self@,
    {
        match self {
            WatchError::Connection(reason) => WatchError::Connection(reason.clone()),
            WatchError::Selection(reason) => WatchError::Selection(reason.clone()),
            WatchError::Logout(reason) => WatchError::Logout(reason.clone()),
        }
    }
}

impl WatchError {
    /// What the server or the transport said.
    pub fn reason(&self) -> (reason: &String)
        ensures
            reason@ == match self@ {
                WatchFailure::Connection(reason) => reason,
                WatchFailure::Selection(reason) => reason,
                WatchFailure::Logout(reason) => reason,
            },
    {
        match self {
            WatchError::Connection(reason) => reason,
            WatchError::Selection(reason) => reason,
            WatchError::Logout(reason) => reason,
        }
    }
}

/// The phase in which a look at the mailbox ends.
pub fn settle(persistence: Persistence) -> (phase: Phase)
    ensures
        phase@ == settled(persistence),
{
    match persistence {
        Persistence::OneShot => Phase::Closing,
        _ => Phase::Idling,
    }
}

impl Watcher {
    /// A watcher of `mailbox` before its first request.
    pub fn new(mailbox: &str, persistence: Persistence) -> (watcher: Watcher)
        ensures
            watcher@ == start(mailbox@, persistence),
    {
        Watcher {
            mailbox: String::from_str(mailbox),
            persistence,
            phase: Phase::Connecting { first: true },
        }
    }

    /// What the watcher asks for.
    pub fn request(&self) -> (request: Request)
        ensures
            request@ == request_of(self@),
    {
        match &self.phase {
            Phase::Connecting { .. } => Request::Connect,
            Phase::Selecting => Request::Select { mailbox: self.mailbox.clone() },
            Phase::Polling => Request::Search { query: String::from_str(UNSEEN_QUERY) },
            Phase::Fetching { unseen } => Request::Fetch {
                sequence_set: unseen.sequence_set(),
                items: String::from_str(MESSAGE_ITEMS),
            },
            Phase::Notifying { request } => Request::Notify { request: request.clone() },
            Phase::Idling => Request::Idle,
            Phase::Closing => Request::Logout,
            Phase::Terminated { outcome } => Request::Stop {
                outcome: match outcome {
                    Ok(_) => Ok(()),
                    Err(error) => Err(error.clone()),
                },
            },
        }
    }

    /// Whether `event` is the outcome of the watcher's request. Any other
    /// event leaves the watcher as it is.
    pub fn awaits(&self, event: &Event) -> (fits: bool)
        ensures
            fits == answers(self@.phase, event@),
    {
        match &self.phase {
            Phase::Connecting { .. } => matches!(event, Event::Connect(_)),
            Phase::Selecting => matches!(event, Event::Select(_)),
            Phase::Polling => matches!(event, Event::Search(_)),
            Phase::Fetching { .. } => matches!(event, Event::Fetch(_)),
            Phase::Notifying { .. } => matches!(event, Event::Notify(_)),
            Phase::Idling => matches!(event, Event::Idle(_)),
            Phase::Closing => matches!(event, Event::Logout(_)),
            Phase::Terminated { .. } => false,
        }
    }

    /// Whether the watcher has stopped.
    pub fn is_terminated(&self) -> (stopped: bool)
        ensures
            stopped == (self@.phase is Terminated),
    {
        matches!(self.phase, Phase::Terminated { .. })
    }
}

} // verus!
