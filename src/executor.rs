//! What a job request turns into: a refusal, or the process to start and how
//! its end becomes a response.
use vstd::prelude::*;
use vstd::string::StringExecFns;
use crate::chen_config::{allows, ChenConfig, ChenJob};
use crate::json::opt_view;
use crate::models::{JobRequest, JobResponse};

verus! {

/// The words of `s`, split at runs of whitespace.
pub uninterp spec fn whitespace_words(s: Seq<char>) -> Seq<Seq<char>>;

/// The text of `b` read as UTF-8, each invalid sequence replaced by U+FFFD.
pub uninterp spec fn utf8_lossy(b: Seq<u8>) -> Seq<char>;

/// Relies on `str::split_whitespace`: the words of `s`, in order.
#[verifier::external_body]
fn split_words(s: &str) -> (r: Vec<String>)
    ensures
        r@.map_values(|w: String| w@) == whitespace_words(s@),
{
    s.split_whitespace().map(|w| w.to_string()).collect()
}

/// Relies on `String::from_utf8_lossy`: the text of `b`, invalid sequences replaced.
#[verifier::external_body]
fn decode_lossy(b: &Vec<u8>) -> (r: String)
    ensures
        r@ == utf8_lossy(b@),
{
    String::from_utf8_lossy(b.as_slice()).into_owned()
}

/// Where a job request stands against the catalog.
#[derive(Clone, Copy, Debug, PartialEq, Eq, Structural)]
pub enum Verdict {
    NotFound,
    NotAllowed,
    Allowed,
}

/// The verdict on `job`: its name must be in the catalog, and the entry must
/// allow its client.
pub open spec fn verdict(config: ChenConfig, job: JobRequest) -> Verdict {
    match config.job_named(job.job_name@) {
        None => Verdict::NotFound,
        Some(def) => if allows(def, job.client_name@) { Verdict::Allowed } else { Verdict::NotAllowed },
    }
}

/// A process to start for a job.
#[derive(Clone, Debug)]
pub struct LaunchPlan {
    /// The id of the job request, for the response.
    pub job_id: String,
    pub program: String,
    pub args: Vec<String>,
    /// Environment variables, as (name, value).
    pub env: Vec<(String, String)>,
    pub is_async: bool,
}

/// What to do with a job request.
#[derive(Clone, Debug)]
pub enum JobDecision {
    /// Answer at once; no process is started.
    Respond(JobResponse),
    /// Start a process.
    Launch(LaunchPlan),
}

/// `r` holds these values.
pub open spec fn response_is(
    r: JobResponse,
    id: Seq<char>,
    success: bool,
    is_async: bool,
    result: Option<Seq<char>>,
) -> bool {
    r.job_id@ == id && r.success == success && r.is_async == is_async && opt_view(r.result) == result
}

pub open spec fn env_view(env: Seq<(String, String)>) -> Seq<(Seq<char>, Seq<char>)> {
    env.map_values(|p: (String, String)| (p.0@, p.1@))
}

/// The arguments of `def`: its argument string split at whitespace.
pub open spec fn args_of(def: ChenJob) -> Seq<Seq<char>> {
    match def.arguments {
        Some(a) => whitespace_words(a@),
        None => Seq::empty(),
    }
}

/// The process that `def` runs for `job`, with the request's fields in its
/// environment.
pub open spec fn plans(p: LaunchPlan, def: ChenJob, job: JobRequest) -> bool {
    &&& p.job_id@ == job.job_id@
    &&& p.program@ == def.executable@
    &&& p.args@.map_values(|w: String| w@) == args_of(def)
    &&& env_view(p.env@) == seq![
        ("GENSOKYO_JOB_ID"@, job.job_id@),
        ("GENSOKYO_JOB_NAME"@, job.job_name@),
        ("GENSOKYO_CLIENT_NAME"@, job.client_name@),
        ("GENSOKYO_JOB_DATA"@, job.job_data@),
    ]
    &&& p.is_async == def.is_async
}

/// `r` is what a job request owes under its verdict.
pub open spec fn decides(config: ChenConfig, job: JobRequest, r: JobDecision) -> bool {
    match verdict(config, job) {
        Verdict::NotFound => r matches JobDecision::Respond(resp)
            && response_is(resp, job.job_id@, false, false, Some("Job not found"@)),
        Verdict::NotAllowed => r matches JobDecision::Respond(resp)
            && response_is(resp, job.job_id@, false, false, Some("Client not allowed"@)),
        Verdict::Allowed => r matches JobDecision::Launch(p)
            && plans(p, config.job_named(job.job_name@)->0, job),
    }
}

/// Two decisions carry the same values.
pub open spec fn same_decision(a: JobDecision, b: JobDecision) -> bool {
    match (a, b) {
        (JobDecision::Respond(x), JobDecision::Respond(y)) =>
            response_is(y, x.job_id@, x.success, x.is_async, opt_view(x.result)),
        (JobDecision::Launch(p), JobDecision::Launch(q)) => {
            &&& p.job_id@ == q.job_id@
            &&& p.program@ == q.program@
            &&& p.args@.map_values(|w: String| w@) == q.args@.map_values(|w: String| w@)
            &&& env_view(p.env@) == env_view(q.env@)
            &&& p.is_async == q.is_async
        },
        _ => false,
    }
}

/// Looking a job up has no effect: whether a request is refused, and why,
/// depends on nothing but the catalog entry under its name and its client.
pub proof fn lemma_verdict_depends_on_entry_and_client(
    c1: ChenConfig,
    j1: JobRequest,
    c2: ChenConfig,
    j2: JobRequest,
)
    requires
        c1.job_named(j1.job_name@) == c2.job_named(j2.job_name@),
        j1.client_name@ == j2.client_name@,
    ensures
        verdict(c1, j1) == verdict(c2, j2),
{
}

/// Repeating a job request against an unchanged catalog is decided the same
/// way each time: the same refusal, or the same process.
pub proof fn lemma_repeated_request_same_decision(
    config: ChenConfig,
    job: JobRequest,
    first: JobDecision,
    second: JobDecision,
)
    requires
        decides(config, job, first),
        decides(config, job, second),
    ensures
        same_decision(first, second),
{
}

fn refusal(id: &String, text: &str) -> (r: JobResponse)
    ensures
        response_is(r, id@, false, false, Some(text@)),
{
    JobResponse { job_id: id.clone(), success: false, is_async: false, result: Some(String::from_str(text)) }
}

/// Decides a job request (the inner envelope: `job_name` is the job to run):
/// "Job not found" for a name outside the catalog, "Client not allowed" for a
/// client that the entry does not allow, else the process to start.
pub fn plan_job(config: &ChenConfig, job: &JobRequest) -> (r: JobDecision)
    requires
        config.wf(),
    ensures
        decides(*config, *job, r),
{
    match config.find_job(&job.job_name) {
        None => JobDecision::Respond(refusal(&job.job_id, "Job not found")),
        Some(i) => {
            let def = &config.jobs[i].1;
            if !def.allows_client(&job.client_name) {
                return JobDecision::Respond(refusal(&job.job_id, "Client not allowed"));
            }
            let args = match &def.arguments {
                Some(a) => split_words(a.as_str()),
                None => Vec::new(),
            };
            proof {
                if def.arguments is None {
                    assert(args@.map_values(|w: String| w@) =~= Seq::<Seq<char>>::empty());
                }
            }
            let mut env: Vec<(String, String)> = Vec::new();
            env.push((String::from_str("GENSOKYO_JOB_ID"), job.job_id.clone()));
            env.push((String::from_str("GENSOKYO_JOB_NAME"), job.job_name.clone()));
            env.push((String::from_str("GENSOKYO_CLIENT_NAME"), job.client_name.clone()));
            env.push((String::from_str("GENSOKYO_JOB_DATA"), job.job_data.clone()));
            let p = LaunchPlan {
                job_id: job.job_id.clone(),
                program: def.executable.clone(),
                args,
                env,
                is_async: def.is_async,
            };
            assert(env_view(p.env@) =~= seq![
                ("GENSOKYO_JOB_ID"@, job.job_id@),
                ("GENSOKYO_JOB_NAME"@, job.job_name@),
                ("GENSOKYO_CLIENT_NAME"@, job.client_name@),
                ("GENSOKYO_JOB_DATA"@, job.job_data@),
            ]);
            JobDecision::Launch(p)
        },
    }
}

/// The response owed once the process of `plan` was started (`started`) or
/// could not be: "Failed to start job" on failure; for an asynchronous job a
/// success with no result at once; for a synchronous one nothing yet, since
/// the answer waits for the process to exit.
pub fn spawn_outcome(plan: &LaunchPlan, started: bool) -> (r: Option<JobResponse>)
    ensures
        !started ==> (r matches Some(resp)
            && response_is(resp, plan.job_id@, false, plan.is_async, Some("Failed to start job"@))),
        started && plan.is_async ==> (r matches Some(resp)
            && response_is(resp, plan.job_id@, true, true, None)),
        started && !plan.is_async ==> r is None,
{
    if !started {
        Some(JobResponse {
            job_id: plan.job_id.clone(),
            success: false,
            is_async: plan.is_async,
            result: Some(String::from_str("Failed to start job")),
        })
    } else if plan.is_async {
        Some(JobResponse { job_id: plan.job_id.clone(), success: true, is_async: true, result: None })
    } else {
        None
    }
}

/// The response to a synchronous job whose process exited (`exit_ok`: with a
/// success status) after writing `output` to its standard output.
pub fn finished_response(plan: &LaunchPlan, exit_ok: bool, output: String) -> (r: JobResponse)
    ensures
        response_is(r, plan.job_id@, exit_ok, false, Some(output@)),
{
    JobResponse { job_id: plan.job_id.clone(), success: exit_ok, is_async: false, result: Some(output) }
}

/// The response to a synchronous job whose process could not be waited for.
pub fn wait_failed(plan: &LaunchPlan) -> (r: JobResponse)
    ensures
        response_is(r, plan.job_id@, false, false, Some("Failed to wait for job"@)),
{
    refusal(&plan.job_id, "Failed to wait for job")
}

/// The response to a synchronous job whose process exited, from the bytes of
/// its standard output, read as UTF-8 with invalid sequences replaced.
pub fn job_finished(plan: &LaunchPlan, exit_ok: bool, stdout: &Vec<u8>) -> (r: JobResponse)
    ensures
        response_is(r, plan.job_id@, exit_ok, false, Some(utf8_lossy(stdout@))),
{
    let text = decode_lossy(stdout);
    finished_response(plan, exit_ok, text)
}

} // verus!
