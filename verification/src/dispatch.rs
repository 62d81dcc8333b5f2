//! Notification dispatcher: fans a mention notice out to the configured
//! sinks, one attempt per sink, in configuration order, with each sink's
//! failure isolated from the others.
//!
//! Delivery itself is network I/O and lives with the caller: the dispatcher
//! renders the exact request owed to the next sink, and records the outcome
//! the caller observed, so that every sink is attempted exactly once and a
//! failed attempt never blocks the ones after it.

use vstd::prelude::*;

use crate::classify::MentionNotice;

verus! {

/// A configured notification sink: a chat channel or a structured record
/// store.
pub enum SinkConfig {
    Chat { workspace: String, channel: String },
    RecordStore { token_name: String, base_id: String, table_name: String },
}

/// The request owed to one sink for one notice: a formatted chat message, or
/// a record with the actor's name, the permalink and the timestamp.
pub enum SinkRequest {
    ChatMessage { workspace: String, channel: String, text: String },
    Record {
        token_name: String,
        base_id: String,
        table_name: String,
        name: String,
        repo: String,
        created: i64,
    },
}

/// The outcome of one delivery attempt.
pub enum DispatchResult {
    Delivered,
    Failed { reason: String },
}

/// Mathematical model of a sink request.
pub enum RequestModel {
    ChatMessage { workspace: Seq<char>, channel: Seq<char>, text: Seq<char> },
    Record {
        token_name: Seq<char>,
        base_id: Seq<char>,
        table_name: Seq<char>,
        name: Seq<char>,
        repo: Seq<char>,
        created: int,
    },
}

/// The model of a sink request.
pub open spec fn request_model_of(r: SinkRequest) -> RequestModel {
    match r {
        SinkRequest::ChatMessage { workspace, channel, text } => RequestModel::ChatMessage {
            workspace: workspace@,
            channel: channel@,
            text: text@,
        },
        SinkRequest::Record { token_name, base_id, table_name, name, repo, created } => {
            RequestModel::Record {
                token_name: token_name@,
                base_id: base_id@,
                table_name: table_name@,
                name: name@,
                repo: repo@,
                created: created as int,
            }
        },
    }
}

/// The human-readable chat text for a notice.
pub open spec fn chat_text_model(n: MentionNotice) -> Seq<char> {
    n.actor@ + " mentioned people on watch list in "@ + n.subject_title@ + "\n"@ + n.permalink@
}

/// The request owed to a sink for a notice: the formatted chat text for a
/// chat sink; for a record store, a record with the actor under the name
/// field, the permalink under the repository field and the timestamp under
/// the creation field.
pub open spec fn request_for(n: MentionNotice, s: SinkConfig) -> RequestModel {
    match s {
        SinkConfig::Chat { workspace, channel } => RequestModel::ChatMessage {
            workspace: workspace@,
            channel: channel@,
            text: chat_text_model(n),
        },
        SinkConfig::RecordStore { token_name, base_id, table_name } => RequestModel::Record {
            token_name: token_name@,
            base_id: base_id@,
            table_name: table_name@,
            name: n.actor@,
            repo: n.permalink@,
            created: n.occurred_at as int,
        },
    }
}

/// Format the human-readable chat text for a notice.
pub fn format_chat_text(notice: &MentionNotice) -> (r: String)
    ensures
        r@ == chat_text_model(*notice),
{
    let mut s = notice.actor.clone();
    s.append(" mentioned people on watch list in ");
    s.append(notice.subject_title.as_str());
    s.append("\n");
    s.append(notice.permalink.as_str());
    s
}

/// One fan-out of one notice to a list of sinks.
///
/// The caller alternates `next_request`, which renders the request owed to
/// the first sink not yet attempted, with `record_outcome`, which appends
/// the observed outcome and moves on to the next sink, whatever the outcome
/// was. The results stand in configuration order, one per attempted sink.
pub struct Dispatcher {
    pub notice: MentionNotice,
    pub sinks: Vec<SinkConfig>,
    pub results: Vec<DispatchResult>,
}

impl Dispatcher {
    /// At most one outcome has been recorded per sink.
    pub open spec fn wf(self) -> bool {
        self.results@.len() <= self.sinks@.len()
    }

    /// The notice being fanned out.
    pub open spec fn notice_model(self) -> MentionNotice {
        self.notice
    }

    /// The configured sinks, in order.
    pub open spec fn sinks_model(self) -> Seq<SinkConfig> {
        self.sinks@
    }

    /// The outcomes recorded so far, in configuration order.
    pub open spec fn results_model(self) -> Seq<DispatchResult> {
        self.results@
    }

    /// How many sinks have been attempted so far.
    pub open spec fn attempted(self) -> int {
        self.results@.len() as int
    }

    /// Begin a fan-out of `notice` to `sinks`, none of them attempted yet.
    pub fn new(notice: MentionNotice, sinks: Vec<SinkConfig>) -> (d: Dispatcher)
        ensures
            d.wf(),
            d.notice_model() == notice,
            d.sinks_model() == sinks@,
            d.results_model() == Seq::<DispatchResult>::empty(),
    {
        let d = Dispatcher { notice, sinks, results: Vec::new() };
        proof {
            assert(d.results@ =~= Seq::<DispatchResult>::empty());
        }
        d
    }

    /// The request owed to the next unattempted sink, or nothing when every
    /// sink has been attempted.
    pub fn next_request(&self) -> (r: Option<SinkRequest>)
        requires
            self.wf(),
        ensures
            r is Some <==> self.attempted() < self.sinks_model().len(),
            r matches Some(req) ==> request_model_of(req) == request_for(
                self.notice_model(),
                self.sinks_model()[self.attempted()],
            ),
    {
        let next = self.results.len();
        if next < self.sinks.len() {
            let req = match &self.sinks[next] {
                SinkConfig::Chat { workspace, channel } => SinkRequest::ChatMessage {
                    workspace: workspace.clone(),
                    channel: channel.clone(),
                    text: format_chat_text(&self.notice),
                },
                SinkConfig::RecordStore { token_name, base_id, table_name } => {
                    SinkRequest::Record {
                        token_name: token_name.clone(),
                        base_id: base_id.clone(),
                        table_name: table_name.clone(),
                        name: self.notice.actor.clone(),
                        repo: self.notice.permalink.clone(),
                        created: self.notice.occurred_at,
                    }
                },
            };
            Some(req)
        } else {
            None
        }
    }

    /// Record the outcome the caller observed for the next sink and move on,
    /// whether the attempt succeeded or failed.
    pub fn record_outcome(&mut self, outcome: DispatchResult)
        requires
            old(self).wf(),
            old(self).attempted() < old(self).sinks_model().len(),
        ensures
            final(self).wf(),
            final(self).notice_model() == old(self).notice_model(),
            final(self).sinks_model() == old(self).sinks_model(),
            final(self).results_model() == old(self).results_model().push(outcome),
    {
        self.results.push(outcome);
    }

    /// Whether every sink has been attempted.
    pub fn is_done(&self) -> (r: bool)
        ensures
            r == (self.attempted() == self.sinks_model().len()),
    {
        self.results.len() == self.sinks.len()
    }

    /// The recorded outcomes, one per sink in configuration order; for use
    /// once every sink has been attempted.
    pub fn into_results(self) -> (r: Vec<DispatchResult>)
        requires
            self.attempted() == self.sinks_model().len(),
        ensures
            r@ == self.results_model(),
            r@.len() == self.sinks_model().len(),
    {
        self.results
    }
}

impl DispatchResult {
    /// Whether this attempt succeeded.
    pub fn is_delivered(&self) -> (r: bool)
        ensures
            r == (*self is Delivered),
    {
        match self {
            DispatchResult::Delivered => true,
            DispatchResult::Failed { .. } => false,
        }
    }
}

} // verus!
