//! Classification engine for source-control collaboration events.
//!
//! An inbound event (issue, issue comment, pull request, pull-request review,
//! pull-request review comment) is normalized to a common set of fields,
//! filtered by a per-variant liveness rule, and searched for mentions of a
//! configured watch list of identity tokens. When the event is live and a
//! watched token occurs in its free text, exactly one canonical mention
//! notice is produced; the dispatcher then fans the notice out to the
//! configured notification sinks, one attempt per sink.

pub mod classify;
pub mod dispatch;
pub mod event;
pub mod liveness;
pub mod matcher;
pub mod watchlist;
