//! The audit log: one JSON record per lifecycle event.  Rendering is
//! verified character by character; appending the rendered line to the
//! log file is the surrounding process's job and is best-effort only.

use vstd::prelude::*;
use vstd::string::StringExecFns;
use crate::model::JobState;
use crate::text::{dec_of, json_escaped, escape_json, u64_to_string};

verus! {

/// The name under which a lifecycle state appears in audit records and
/// snapshots.
pub open spec fn state_name(s: JobState) -> Seq<char> {
    match s {
        JobState::Queued => "Queued"@,
        JobState::Running => "Running"@,
        JobState::Completed => "Completed"@,
        JobState::Failed => "Failed"@,
        JobState::Canceled => "Canceled"@,
    }
}

/// Renders a lifecycle state's name.
pub fn state_label(s: JobState) -> (r: &'static str)
    ensures
        r@ == state_name(s),
{
    match s {
        JobState::Queued => "Queued",
        JobState::Running => "Running",
        JobState::Completed => "Completed",
        JobState::Failed => "Failed",
        JobState::Canceled => "Canceled",
    }
}

/// One audit line: a JSON object holding the job id, the state and
/// stage entered, the transition timestamp, and an optional message.
pub open spec fn audit_json(
    job_id: Seq<char>,
    state: JobState,
    stage: Seq<char>,
    timestamp_ms: u64,
    message: Option<Seq<char>>,
) -> Seq<char> {
    "{\"job_id\":\""@ + json_escaped(job_id)
        + "\",\"state\":\""@ + state_name(state)
        + "\",\"stage\":\""@ + json_escaped(stage)
        + "\",\"timestamp_ms\":"@ + dec_of(timestamp_ms as nat)
        + ",\"message\":"@
        + (match message {
            Option::Some(m) => seq!['"'] + json_escaped(m) + seq!['"'],
            Option::None => "null"@,
        })
        + "}"@
}

/// One lifecycle event of one job, ready to be rendered.
#[derive(Debug)]
pub struct AuditEvent<'a> {
    pub job_id: &'a str,
    pub state: JobState,
    pub stage: &'a str,
    pub timestamp_ms: u64,
    pub message: Option<&'a str>,
}

impl<'a> AuditEvent<'a> {
    /// Renders the event as one JSON line (without the newline).
    pub fn render(&self) -> (r: String)
        ensures
            r@ == audit_json(
                self.job_id@,
                self.state,
                self.stage@,
                self.timestamp_ms,
                match self.message {
                    Option::Some(m) => Option::Some(m@),
                    Option::None => Option::None,
                },
            ),
    {
        let mut r = String::from_str("{\"job_id\":\"");
        let escaped_id = escape_json(self.job_id);
        r.append(escaped_id.as_str());
        r.append("\",\"state\":\"");
        r.append(state_label(self.state));
        r.append("\",\"stage\":\"");
        let escaped_stage = escape_json(self.stage);
        r.append(escaped_stage.as_str());
        r.append("\",\"timestamp_ms\":");
        let ts = u64_to_string(self.timestamp_ms);
        r.append(ts.as_str());
        r.append(",\"message\":");
        match self.message {
            Option::Some(m) => {
                let mut quoted = String::from_str("\"");
                let escaped_msg = escape_json(m);
                quoted.append(escaped_msg.as_str());
                quoted.append("\"");
                r.append(quoted.as_str());
                proof {
                    reveal_strlit("\"");
                    assert("\""@ =~= seq!['"']);
                    assert(quoted@ =~= seq!['"'] + json_escaped(m@) + seq!['"']);
                }
            },
            Option::None => {
                r.append("null");
            },
        }
        r.append("}");
        r
    }
}

} // verus!
