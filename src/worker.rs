//! The session with the dispatch server: the handshake, the routing of each
//! inbound envelope, and when and how the connection is closed. The transport
//! is driven by the caller, which hands each received message in as an
//! `Event` and carries out the `Step` that comes back.
use vstd::prelude::*;
use vstd::string::StringExecFns;
use crate::chen_config::ChenConfig;
use crate::executor::{plan_job, plans, same_decision, verdict, JobDecision, LaunchPlan, Verdict};
use crate::json::{
    connection_request_json, encode_connection_request, encode_heartbeat, encode_job_response,
    heartbeat_text, opt_view, response_json,
};
use crate::models::{ConnectionRequest, ConnectionResponse, Heartbeat, JobRequest, JobResponse};

verus! {

/// Relies on `chrono::Utc::now` and `DateTime::to_rfc3339`: the current time
/// as RFC 3339 text. Nothing is assumed of its value.
#[verifier::external_body]
fn now_rfc3339() -> (r: String) {
    chrono::Utc::now().to_rfc3339()
}

/// Relies on `gethostname::gethostname`: this host's name, when it is valid
/// Unicode. Nothing is assumed of its value.
#[verifier::external_body]
fn host_name() -> (r: Option<String>) {
    gethostname::gethostname().into_string().ok()
}

/// What an envelope asks for, by its `job_name`.
#[derive(Clone, Copy, Debug, PartialEq, Eq, Structural)]
pub enum Route {
    ConnectionResponse,
    Heartbeat,
    JobRequest,
    Close,
    Unsupported,
}

pub open spec fn route_spec(name: Seq<char>) -> Route {
    if name == "connection_response"@ {
        Route::ConnectionResponse
    } else if name == "heartbeat"@ {
        Route::Heartbeat
    } else if name == "job_request"@ {
        Route::JobRequest
    } else if name == "close"@ {
        Route::Close
    } else {
        Route::Unsupported
    }
}

/// The route named by `name`; names match exactly.
pub fn route_of(name: &String) -> (r: Route)
    ensures
        r == route_spec(name@),
{
    if name.eq(&String::from_str("connection_response")) {
        Route::ConnectionResponse
    } else if name.eq(&String::from_str("heartbeat")) {
        Route::Heartbeat
    } else if name.eq(&String::from_str("job_request")) {
        Route::JobRequest
    } else if name.eq(&String::from_str("close")) {
        Route::Close
    } else {
        Route::Unsupported
    }
}

/// An inbound envelope with its payload decoded by its route; `None` where
/// the payload was not valid for the route.
#[derive(Clone, Debug)]
pub enum Inbound {
    ConnectionResponse(Option<ConnectionResponse>),
    /// The envelope's id, and the heartbeat.
    Heartbeat(String, Option<Heartbeat>),
    /// The envelope's id, and the inner envelope of the job request.
    JobRequest(String, Option<JobRequest>),
    Close,
    Unsupported,
}

/// What the transport delivered.
#[derive(Clone, Debug)]
pub enum Event {
    Message(Inbound),
    /// A text message that is not an envelope.
    Undecodable,
    /// A close frame, a frame that is not text, a receive error, or the end
    /// of the stream.
    Ended,
}

/// The status of a close frame.
#[derive(Clone, Copy, Debug, PartialEq, Eq, Structural)]
pub enum CloseStatus {
    Normal,
    Invalid,
}

/// Why a session ended.
#[derive(Clone, Copy, Debug, PartialEq, Eq, Structural)]
pub enum StopReason {
    ServerClosed,
    ConnectionFailed,
    UnsupportedRoute,
    MalformedEnvelope,
    MalformedConnectionResponse,
    MalformedHeartbeat,
    TransportEnded,
}

/// What the caller does next.
#[derive(Clone, Debug)]
pub enum Step {
    /// Nothing to send; go on receiving.
    Continue,
    /// Send this text; go on receiving (a failed send ends nothing).
    Send(String),
    /// Start this process, then answer with `spawn_outcome` and, for a
    /// synchronous job, `job_finished`; go on receiving afterwards.
    Launch(LaunchPlan),
    /// Send a close frame with this status and text; the session is over.
    Close(CloseStatus, String, StopReason),
    /// The session is over; no close frame was sent.
    Stop(StopReason),
    /// The session was over already; nothing was done.
    Finished,
}

pub open spec fn closes(r: Step, status: CloseStatus, text: Seq<char>, why: StopReason) -> bool {
    r matches Step::Close(s, t, w) && s == status && t@ == text && w == why
}

pub open spec fn sends(r: Step, text: Seq<char>) -> bool {
    r matches Step::Send(t) && t@ == text
}

/// The connection request that announces `config`'s catalog under `name`.
pub open spec fn requests(c: ConnectionRequest, config: ChenConfig, name: Seq<char>) -> bool {
    &&& opt_view(c.client_secret) == Some(config.client_secret@)
    &&& opt_view(c.friendly_name) == Some(name)
    &&& c.jobs_available matches Some(v) && v@.map_values(|s: String| s@) == config.names()
}

/// The reply to a heartbeat: a successful, synchronous job response under the
/// envelope's id, whose result is the heartbeat with its timestamp and
/// `acknowledged` set.
pub open spec fn heartbeat_reply(id: Seq<char>, timestamp: Seq<char>, acknowledged: Seq<char>) -> Seq<char> {
    response_json(id, true, false, Some(heartbeat_text(timestamp, Some(acknowledged))))
}

/// How the session answers `e` in state `w`, the time read for a heartbeat
/// left open.
pub open spec fn reacts(w: Worker, e: Event, r: Step, w2: Worker) -> bool {
    if w.stopped {
        r is Finished && w2 == w
    } else {
        &&& w2.config == w.config
        &&& w2.connected == (w.connected || (e matches Event::Message(
            Inbound::ConnectionResponse(Some(c))) && c.success))
        &&& w2.close_sent == (w.close_sent || r is Close)
        &&& w2.stopped == (r is Close || r is Stop)
        &&& match e {
            Event::Ended => r == Step::Stop(StopReason::TransportEnded),
            Event::Undecodable => r == Step::Stop(StopReason::MalformedEnvelope),
            Event::Message(m) => match m {
                Inbound::ConnectionResponse(None) => r == Step::Stop(StopReason::MalformedConnectionResponse),
                Inbound::ConnectionResponse(Some(c)) => if c.success {
                    r is Continue
                } else {
                    closes(r, CloseStatus::Invalid, "Connection failed."@, StopReason::ConnectionFailed)
                },
                Inbound::Heartbeat(_, None) => r == Step::Stop(StopReason::MalformedHeartbeat),
                Inbound::Heartbeat(id, Some(h)) => exists|ack: Seq<char>|
                    sends(r, #[trigger] heartbeat_reply(id@, h.timestamp@, ack)),
                Inbound::JobRequest(id, None) => sends(
                    r,
                    response_json(id@, false, false, Some("Failed to parse job request."@)),
                ),
                Inbound::JobRequest(_, Some(job)) => match verdict(w.config, job) {
                    Verdict::NotFound => sends(r, response_json(job.job_id@, false, false, Some("Job not found"@))),
                    Verdict::NotAllowed => sends(
                        r,
                        response_json(job.job_id@, false, false, Some("Client not allowed"@)),
                    ),
                    Verdict::Allowed => r matches Step::Launch(p)
                        && plans(p, w.config.job_named(job.job_name@)->0, job),
                },
                Inbound::Close => closes(r, CloseStatus::Normal, "Server requested close."@, StopReason::ServerClosed),
                Inbound::Unsupported => closes(
                    r,
                    CloseStatus::Invalid,
                    "Unsupported message type."@,
                    StopReason::UnsupportedRoute,
                ),
            },
        }
    }
}

/// An envelope with an unsupported route closes the connection with the
/// invalid status and ends the session: whatever arrives afterwards is not
/// processed, and the session does not change.
pub proof fn lemma_unsupported_route_ends_session(w: Worker, r: Step, w2: Worker, e: Event, r2: Step, w3: Worker)
    requires
        !w.stopped,
        reacts(w, Event::Message(Inbound::Unsupported), r, w2),
        reacts(w2, e, r2, w3),
    ensures
        closes(r, CloseStatus::Invalid, "Unsupported message type."@, StopReason::UnsupportedRoute),
        w2.stopped && w2.close_sent,
        r2 is Finished,
        w3 == w2,
{
}

/// `ws[k]` answers `es[k]` with `rs[k]` and becomes `ws[k + 1]`, for each `k`.
pub open spec fn runs(ws: Seq<Worker>, es: Seq<Event>, rs: Seq<Step>) -> bool {
    &&& ws.len() == es.len() + 1
    &&& rs.len() == es.len()
    &&& forall|k: int| 0 <= k < es.len() ==> #[trigger] reacts(ws[k], es[k], rs[k], ws[k + 1])
}

/// Two steps carry the same values: the same text sent, or the same process
/// to start.
pub open spec fn same_step(a: Step, b: Step) -> bool {
    match (a, b) {
        (Step::Send(x), Step::Send(y)) => x@ == y@,
        (Step::Launch(p), Step::Launch(q)) => same_decision(JobDecision::Launch(p), JobDecision::Launch(q)),
        _ => false,
    }
}

/// No event changes the catalog.
pub proof fn lemma_run_keeps_catalog(ws: Seq<Worker>, es: Seq<Event>, rs: Seq<Step>, k: int)
    requires
        runs(ws, es, rs),
        0 <= k <= es.len(),
    ensures
        ws[k].config == ws[0].config,
    decreases k,
{
    if k > 0 {
        lemma_run_keeps_catalog(ws, es, rs, k - 1);
        assert(reacts(ws[k - 1], es[k - 1], rs[k - 1], ws[(k - 1) + 1]));
    }
}

/// A session that is over stays over.
pub proof fn lemma_run_stays_stopped(ws: Seq<Worker>, es: Seq<Event>, rs: Seq<Step>, i: int, j: int)
    requires
        runs(ws, es, rs),
        0 <= i <= j <= es.len(),
        ws[i].stopped,
    ensures
        ws[j].stopped,
    decreases j - i,
{
    if j > i {
        lemma_run_stays_stopped(ws, es, rs, i, j - 1);
        assert(reacts(ws[j - 1], es[j - 1], rs[j - 1], ws[(j - 1) + 1]));
    }
}

/// However many events come between them, the same job request made twice in
/// a session that is still going gets the same verdict and the same answer:
/// the same refusal, or the same process to start.
pub proof fn lemma_repeated_job_request_same_answer(
    ws: Seq<Worker>,
    es: Seq<Event>,
    rs: Seq<Step>,
    i: int,
    j: int,
)
    requires
        runs(ws, es, rs),
        0 <= i < j < es.len(),
        es[i] matches Event::Message(Inbound::JobRequest(_, Some(_))),
        es[j] == es[i],
        !ws[j].stopped,
    ensures
        es[i] matches Event::Message(Inbound::JobRequest(_, Some(job)))
            && verdict(ws[i].config, job) == verdict(ws[j].config, job),
        same_step(rs[i], rs[j]),
{
    lemma_run_keeps_catalog(ws, es, rs, i);
    lemma_run_keeps_catalog(ws, es, rs, j);
    if ws[i].stopped {
        lemma_run_stays_stopped(ws, es, rs, i, j);
    }
    assert(reacts(ws[i], es[i], rs[i], ws[i + 1]));
    assert(reacts(ws[j], es[j], rs[j], ws[j + 1]));
}

/// One agent's session: its catalog, and where the session stands.
#[derive(Clone, Debug)]
pub struct Worker {
    pub config: ChenConfig,
    /// The server accepted the connection request.
    pub connected: bool,
    /// A close frame has been sent.
    pub close_sent: bool,
    /// The session is over.
    pub stopped: bool,
}

impl Worker {
    pub open spec fn wf(&self) -> bool {
        self.config.wf()
    }

    /// A session that has not started.
    pub fn new(config: ChenConfig) -> (w: Worker)
        ensures
            w.config == config,
            !w.connected && !w.close_sent && !w.stopped,
    {
        Worker { config, connected: false, close_sent: false, stopped: false }
    }

    /// The connection request that opens the session: the secret, `friendly_name`,
    /// and the names of the catalog's jobs in catalog order.
    pub fn connection_request(&self, friendly_name: String) -> (c: ConnectionRequest)
        ensures
            requests(c, self.config, friendly_name@),
    {
        let mut names: Vec<String> = Vec::new();
        let mut i: usize = 0;
        while i < self.config.jobs.len()
            invariant
                i <= self.config.jobs@.len(),
                names@.len() == i,
                forall|k: int| 0 <= k < i ==> #[trigger] names@[k]@ == self.config.jobs@[k].0@,
            decreases self.config.jobs@.len() - i,
        {
            names.push(self.config.jobs[i].0.clone());
            i += 1;
        }
        assert(names@.map_values(|s: String| s@) =~= self.config.names());
        ConnectionRequest {
            client_secret: Some(self.config.client_secret.clone()),
            friendly_name: Some(friendly_name),
            jobs_available: Some(names),
        }
    }

    /// The text of the opening connection request, under this host's name;
    /// `None` where the host's name is not valid Unicode.
    pub fn opening_message(&self) -> (r: Option<String>)
        ensures
            r matches Some(t) ==> exists|c: ConnectionRequest|
                requests(c, self.config, opt_view(c.friendly_name)->0)
                && t@ == #[trigger] connection_request_json(c),
    {
        match host_name() {
            Some(name) => {
                let c = self.connection_request(name);
                let t = encode_connection_request(&c);
                assert(requests(c, self.config, opt_view(c.friendly_name)->0));
                Some(t)
            },
            None => None,
        }
    }

    /// The heartbeat reply for envelope `id`: `heartbeat`'s timestamp, with
    /// `acknowledged` as the time of acknowledgement.
    pub fn heartbeat_response(id: &String, heartbeat: &Heartbeat, acknowledged: String) -> (r: JobResponse)
        ensures
            r.job_id@ == id@ && r.success && !r.is_async,
            opt_view(r.result) == Some(heartbeat_text(heartbeat.timestamp@, Some(acknowledged@))),
    {
        let reply = Heartbeat { timestamp: heartbeat.timestamp.clone(), acknowledged: Some(acknowledged) };
        let text = encode_heartbeat(&reply);
        JobResponse { job_id: id.clone(), success: true, is_async: false, result: Some(text) }
    }

    /// Answers one event of the transport, and moves the session on.
    pub fn on_event(&mut self, e: Event) -> (r: Step)
        requires
            old(self).wf(),
        ensures
            final(self).wf(),
            reacts(*old(self), e, r, *final(self)),
    {
        if self.stopped {
            return Step::Finished;
        }
        match e {
            Event::Ended => {
                self.stopped = true;
                Step::Stop(StopReason::TransportEnded)
            },
            Event::Undecodable => {
                self.stopped = true;
                Step::Stop(StopReason::MalformedEnvelope)
            },
            Event::Message(m) => self.on_message(m),
        }
    }

    fn stop(&mut self, why: StopReason) -> (r: Step)
        ensures
            r == Step::Stop(why),
            *final(self) == (Worker { stopped: true, ..*old(self) }),
    {
        self.stopped = true;
        Step::Stop(why)
    }

    fn close(&mut self, status: CloseStatus, text: &str, why: StopReason) -> (r: Step)
        ensures
            closes(r, status, text@, why),
            *final(self) == (Worker { stopped: true, close_sent: true, ..*old(self) }),
    {
        self.stopped = true;
        self.close_sent = true;
        Step::Close(status, String::from_str(text), why)
    }

    fn on_message(&mut self, m: Inbound) -> (r: Step)
        requires
            old(self).wf(),
            !old(self).stopped,
        ensures
            reacts(*old(self), Event::Message(m), r, *final(self)),
    {
        match m {
            Inbound::ConnectionResponse(None) => self.stop(StopReason::MalformedConnectionResponse),
            Inbound::ConnectionResponse(Some(c)) => {
                if c.success {
                    self.connected = true;
                    Step::Continue
                } else {
                    self.close(CloseStatus::Invalid, "Connection failed.", StopReason::ConnectionFailed)
                }
            },
            Inbound::Heartbeat(_, None) => self.stop(StopReason::MalformedHeartbeat),
            Inbound::Heartbeat(id, Some(h)) => {
                let now = now_rfc3339();
                let resp = Self::heartbeat_response(&id, &h, now);
                let t = encode_job_response(&resp);
                assert(sends(Step::Send(t), heartbeat_reply(id@, h.timestamp@, now@)));
                Step::Send(t)
            },
            Inbound::JobRequest(id, None) => {
                let resp = JobResponse {
                    job_id: id,
                    success: false,
                    is_async: false,
                    result: Some(String::from_str("Failed to parse job request.")),
                };
                Step::Send(encode_job_response(&resp))
            },
            Inbound::JobRequest(_, Some(job)) => match plan_job(&self.config, &job) {
                JobDecision::Respond(resp) => Step::Send(encode_job_response(&resp)),
                JobDecision::Launch(p) => Step::Launch(p),
            },
            Inbound::Close => self.close(CloseStatus::Normal, "Server requested close.", StopReason::ServerClosed),
            Inbound::Unsupported => self.close(
                CloseStatus::Invalid,
                "Unsupported message type.",
                StopReason::UnsupportedRoute,
            ),
        }
    }

    /// The close frame that ends the session, "Worker stopped." with the
    /// normal status, unless one was sent already.
    pub fn final_close(&mut self) -> (r: Option<(CloseStatus, String)>)
        ensures
            old(self).close_sent ==> r is None,
            !old(self).close_sent ==> (r matches Some(c) && c.0 == CloseStatus::Normal
                && c.1@ == "Worker stopped."@),
            *final(self) == (Worker { close_sent: true, stopped: true, ..*old(self) }),
    {
        let r = if self.close_sent {
            None
        } else {
            Some((CloseStatus::Normal, String::from_str("Worker stopped.")))
        };
        self.close_sent = true;
        self.stopped = true;
        r
    }
}

} // verus!
