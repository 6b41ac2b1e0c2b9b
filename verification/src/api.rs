//! The worker API surface: the typed bodies the worker's HTTP service
//! exchanges, their canonical JSON forms, and the fixed endpoints.

use vstd::prelude::*;
use crate::chars::{str_to_chars, chars_to_string, push_chars};
use crate::jstr::{esc, escape_into};
use crate::parse::{
    p_tok, p_key, p_end, p_member_bool, p_member_string, p_member_opt_string, p_member_u32,
    p_member_opt_u32, step_tok, step_key, step_end, step_member_bool, step_member_string,
    step_member_opt_string, step_member_u32, step_member_opt_u32,
};
use crate::config::ConfigUpdate;

verus! {

/// The view of an optional string.
pub open spec fn opt_str_view(o: &Option<String>) -> Option<Seq<char>> {
    match o {
        Some(s) => Some(s@),
        None => None,
    }
}

/// Execution counters reported by the worker.
#[derive(Debug, Clone)]
pub struct Stats {
    pub executions_completed: u32,
    pub executions_failed: u32,
    pub started_at: Option<String>,
}

/// The mathematical value of `Stats`.
pub ghost struct StatsV {
    pub executions_completed: u32,
    pub executions_failed: u32,
    pub started_at: Option<Seq<char>>,
}

impl View for Stats {
    type V = StatsV;

    open spec fn view(&self) -> StatsV {
        StatsV {
            executions_completed: self.executions_completed,
            executions_failed: self.executions_failed,
            started_at: opt_str_view(&self.started_at),
        }
    }
}

/// The configuration the worker itself reports.
#[derive(Debug, Clone)]
pub struct WorkerConfig {
    pub orchestrator_url: String,
    pub polling_interval: u32,
    pub heartbeat_interval: u32,
}

/// The mathematical value of `WorkerConfig`.
pub ghost struct WorkerConfigV {
    pub orchestrator_url: Seq<char>,
    pub polling_interval: u32,
    pub heartbeat_interval: u32,
}

impl View for WorkerConfig {
    type V = WorkerConfigV;

    open spec fn view(&self) -> WorkerConfigV {
        WorkerConfigV {
            orchestrator_url: self.orchestrator_url@,
            polling_interval: self.polling_interval,
            heartbeat_interval: self.heartbeat_interval,
        }
    }
}

/// The worker's full status response.
#[derive(Debug, Clone)]
pub struct WorkerStatus {
    pub running: bool,
    pub worker_name: String,
    pub version: String,
    pub has_active_execution: bool,
    pub current_execution_id: Option<String>,
    pub current_execution_pid: Option<u32>,
    pub last_heartbeat: Option<String>,
    pub stats: Stats,
    pub config: WorkerConfig,
}

/// The mathematical value of `WorkerStatus`.
pub ghost struct WorkerStatusV {
    pub running: bool,
    pub worker_name: Seq<char>,
    pub version: Seq<char>,
    pub has_active_execution: bool,
    pub current_execution_id: Option<Seq<char>>,
    pub current_execution_pid: Option<u32>,
    pub last_heartbeat: Option<Seq<char>>,
    pub stats: StatsV,
    pub config: WorkerConfigV,
}

impl View for WorkerStatus {
    type V = WorkerStatusV;

    open spec fn view(&self) -> WorkerStatusV {
        WorkerStatusV {
            running: self.running,
            worker_name: self.worker_name@,
            version: self.version@,
            has_active_execution: self.has_active_execution,
            current_execution_id: opt_str_view(&self.current_execution_id),
            current_execution_pid: self.current_execution_pid,
            last_heartbeat: opt_str_view(&self.last_heartbeat),
            stats: self.stats@,
            config: self.config@,
        }
    }
}

/// The worker's answer to a kill request. `killed == false` with no
/// execution id legitimately reports that nothing was running.
#[derive(Debug, Clone)]
pub struct KillResult {
    pub killed: bool,
    pub execution_id: Option<String>,
}

/// The mathematical value of `KillResult`.
pub ghost struct KillResultV {
    pub killed: bool,
    pub execution_id: Option<Seq<char>>,
}

impl View for KillResult {
    type V = KillResultV;

    open spec fn view(&self) -> KillResultV {
        KillResultV {
            killed: self.killed,
            execution_id: opt_str_view(&self.execution_id),
        }
    }
}

/// Parse the JSON text of a `WorkerStatus`: one object with the nine
/// members in their canonical order, in any rendering of the standard
/// JSON grammar for this shape, consuming the whole input.
pub open spec fn parse_worker_status_spec(s: Seq<char>) -> Option<WorkerStatusV> {
    match p_tok(s, '{') {
        Some(r0) => match p_member_bool(r0, "running"@) {
            Some(running) => match p_tok(running.1, ',') {
                Some(r1) => match p_member_string(r1, "worker_name"@) {
                    Some(name) => match p_tok(name.1, ',') {
                        Some(r2) => match p_member_string(r2, "version"@) {
                            Some(version) => match p_tok(version.1, ',') {
                                Some(r3) => match p_member_bool(r3, "has_active_execution"@) {
                                    Some(active) => parse_worker_status_rest(
                                        running.0,
                                        name.0,
                                        version.0,
                                        active.0,
                                        active.1,
                                    ),
                                    None => None,
                                },
                                None => None,
                            },
                            None => None,
                        },
                        None => None,
                    },
                    None => None,
                },
                None => None,
            },
            None => None,
        },
        None => None,
    }
}

/// The tail of the status object: the optional fields, the stats object
/// and the config object.
pub open spec fn parse_worker_status_rest(
    running: bool,
    name: Seq<char>,
    version: Seq<char>,
    active: bool,
    s: Seq<char>,
) -> Option<WorkerStatusV> {
    match p_tok(s, ',') {
        Some(r4) => match p_member_opt_string(r4, "current_execution_id"@) {
            Some(cur_id) => match p_tok(cur_id.1, ',') {
                Some(r5) => match p_member_opt_u32(r5, "current_execution_pid"@) {
                    Some(cur_pid) => match p_tok(cur_pid.1, ',') {
                        Some(r6) => match p_member_opt_string(r6, "last_heartbeat"@) {
                            Some(hb) => match parse_stats_config(hb.1) {
                                Some(tail) => Some(
                                    WorkerStatusV {
                                        running: running,
                                        worker_name: name,
                                        version: version,
                                        has_active_execution: active,
                                        current_execution_id: cur_id.0,
                                        current_execution_pid: cur_pid.0,
                                        last_heartbeat: hb.0,
                                        stats: tail.0,
                                        config: tail.1,
                                    },
                                ),
                                None => None,
                            },
                            None => None,
                        },
                        None => None,
                    },
                    None => None,
                },
                None => None,
            },
            None => None,
        },
        None => None,
    }
}

/// The stats and config objects closing the status body; the input must
/// be consumed up to trailing whitespace.
pub open spec fn parse_stats_config(s: Seq<char>) -> Option<(StatsV, WorkerConfigV)> {
    match p_tok(s, ',') {
        Some(r7) => match p_key(r7, "stats"@) {
            Some(r8) => match p_tok(r8, '{') {
                Some(r9) => match p_member_u32(r9, "executions_completed"@) {
                    Some(done) => match p_tok(done.1, ',') {
                        Some(r10) => match p_member_u32(r10, "executions_failed"@) {
                            Some(failed) => match p_tok(failed.1, ',') {
                                Some(r11) => match p_member_opt_string(r11, "started_at"@) {
                                    Some(started) => match p_tok(started.1, '}') {
                                        Some(r12) => parse_config_tail(
                                            StatsV {
                                                executions_completed: done.0,
                                                executions_failed: failed.0,
                                                started_at: started.0,
                                            },
                                            r12,
                                        ),
                                        None => None,
                                    },
                                    None => None,
                                },
                                None => None,
                            },
                            None => None,
                        },
                        None => None,
                    },
                    None => None,
                },
                None => None,
            },
            None => None,
        },
        None => None,
    }
}

/// The config object and the closing brace of the status body.
pub open spec fn parse_config_tail(stats: StatsV, s: Seq<char>) -> Option<
    (StatsV, WorkerConfigV),
> {
    match p_tok(s, ',') {
        Some(r0) => match p_key(r0, "config"@) {
            Some(r1) => match p_tok(r1, '{') {
                Some(r2) => match p_member_string(r2, "orchestrator_url"@) {
                    Some(url) => match p_tok(url.1, ',') {
                        Some(r3) => match p_member_u32(r3, "polling_interval"@) {
                            Some(poll) => match p_tok(poll.1, ',') {
                                Some(r4) => match p_member_u32(r4, "heartbeat_interval"@) {
                                    Some(hbi) => match p_tok(hbi.1, '}') {
                                        Some(r5) => match p_tok(r5, '}') {
                                            Some(r6) => if p_end(r6) {
                                                Some(
                                                    (
                                                        stats,
                                                        WorkerConfigV {
                                                            orchestrator_url: url.0,
                                                            polling_interval: poll.0,
                                                            heartbeat_interval: hbi.0,
                                                        },
                                                    ),
                                                )
                                            } else {
                                                None
                                            },
                                            None => None,
                                        },
                                        None => None,
                                    },
                                    None => None,
                                },
                                None => None,
                            },
                            None => None,
                        },
                        None => None,
                    },
                    None => None,
                },
                None => None,
            },
            None => None,
        },
        None => None,
    }
}

/// Turn an optional character vector into an optional string.
fn opt_chars_to_string(o: &Option<Vec<char>>) -> (r: Option<String>)
    ensures
        opt_str_view(&r) == (match o {
            Some(v) => Some::<Seq<char>>(v@),
            None => None::<Seq<char>>,
        }),
{
    match o {
        Some(v) => Some(chars_to_string(v)),
        None => None,
    }
}

/// Decode a `WorkerStatus` from JSON text.
#[verifier::rlimit(100)]
#[verifier::spinoff_prover]
pub fn parse_worker_status(s: &str) -> (r: Option<WorkerStatus>)
    ensures
        match r {
            Some(ws) => parse_worker_status_spec(s@) == Some(ws@),
            None => parse_worker_status_spec(s@) is None,
        },
{
    let v = str_to_chars(s);
    proof {
        assert(v@.skip(0) =~= v@);
    }
    let i0 = match step_tok(&v, 0, '{') {
        Some(j) => j,
        None => {
            return None;
        },
    };
    let (running, i1) = match step_member_bool(&v, i0, &str_to_chars("running")) {
        Some(p) => p,
        None => {
            return None;
        },
    };
    let i2 = match step_tok(&v, i1, ',') {
        Some(j) => j,
        None => {
            return None;
        },
    };
    let (name, i3) = match step_member_string(&v, i2, &str_to_chars("worker_name")) {
        Some(p) => p,
        None => {
            return None;
        },
    };
    let i4 = match step_tok(&v, i3, ',') {
        Some(j) => j,
        None => {
            return None;
        },
    };
    let (version, i5) = match step_member_string(&v, i4, &str_to_chars("version")) {
        Some(p) => p,
        None => {
            return None;
        },
    };
    let i6 = match step_tok(&v, i5, ',') {
        Some(j) => j,
        None => {
            return None;
        },
    };
    let (active, i7) = match step_member_bool(&v, i6, &str_to_chars("has_active_execution")) {
        Some(p) => p,
        None => {
            return None;
        },
    };
    let i8 = match step_tok(&v, i7, ',') {
        Some(j) => j,
        None => {
            return None;
        },
    };
    let (cur_id, i9) = match step_member_opt_string(
        &v,
        i8,
        &str_to_chars("current_execution_id"),
    ) {
        Some(p) => p,
        None => {
            return None;
        },
    };
    let i10 = match step_tok(&v, i9, ',') {
        Some(j) => j,
        None => {
            return None;
        },
    };
    let (cur_pid, i11) = match step_member_opt_u32(
        &v,
        i10,
        &str_to_chars("current_execution_pid"),
    ) {
        Some(p) => p,
        None => {
            return None;
        },
    };
    let i12 = match step_tok(&v, i11, ',') {
        Some(j) => j,
        None => {
            return None;
        },
    };
    let (hb, i13) = match step_member_opt_string(&v, i12, &str_to_chars("last_heartbeat")) {
        Some(p) => p,
        None => {
            return None;
        },
    };
    let i14 = match step_tok(&v, i13, ',') {
        Some(j) => j,
        None => {
            return None;
        },
    };
    let i15 = match step_key(&v, i14, &str_to_chars("stats")) {
        Some(j) => j,
        None => {
            return None;
        },
    };
    let i16 = match step_tok(&v, i15, '{') {
        Some(j) => j,
        None => {
            return None;
        },
    };
    let (done, i17) = match step_member_u32(&v, i16, &str_to_chars("executions_completed")) {
        Some(p) => p,
        None => {
            return None;
        },
    };
    let i18 = match step_tok(&v, i17, ',') {
        Some(j) => j,
        None => {
            return None;
        },
    };
    let (failed, i19) = match step_member_u32(&v, i18, &str_to_chars("executions_failed")) {
        Some(p) => p,
        None => {
            return None;
        },
    };
    let i20 = match step_tok(&v, i19, ',') {
        Some(j) => j,
        None => {
            return None;
        },
    };
    let (started, i21) = match step_member_opt_string(&v, i20, &str_to_chars("started_at")) {
        Some(p) => p,
        None => {
            return None;
        },
    };
    let i22 = match step_tok(&v, i21, '}') {
        Some(j) => j,
        None => {
            return None;
        },
    };
    let i23 = match step_tok(&v, i22, ',') {
        Some(j) => j,
        None => {
            return None;
        },
    };
    let i24 = match step_key(&v, i23, &str_to_chars("config")) {
        Some(j) => j,
        None => {
            return None;
        },
    };
    let i25 = match step_tok(&v, i24, '{') {
        Some(j) => j,
        None => {
            return None;
        },
    };
    let (url, i26) = match step_member_string(&v, i25, &str_to_chars("orchestrator_url")) {
        Some(p) => p,
        None => {
            return None;
        },
    };
    let i27 = match step_tok(&v, i26, ',') {
        Some(j) => j,
        None => {
            return None;
        },
    };
    let (poll, i28) = match step_member_u32(&v, i27, &str_to_chars("polling_interval")) {
        Some(p) => p,
        None => {
            return None;
        },
    };
    let i29 = match step_tok(&v, i28, ',') {
        Some(j) => j,
        None => {
            return None;
        },
    };
    let (hbi, i30) = match step_member_u32(&v, i29, &str_to_chars("heartbeat_interval")) {
        Some(p) => p,
        None => {
            return None;
        },
    };
    let i31 = match step_tok(&v, i30, '}') {
        Some(j) => j,
        None => {
            return None;
        },
    };
    let i32 = match step_tok(&v, i31, '}') {
        Some(j) => j,
        None => {
            return None;
        },
    };
    if !step_end(&v, i32) {
        return None;
    }
    let ws = WorkerStatus {
        running,
        worker_name: chars_to_string(&name),
        version: chars_to_string(&version),
        has_active_execution: active,
        current_execution_id: opt_chars_to_string(&cur_id),
        current_execution_pid: cur_pid,
        last_heartbeat: opt_chars_to_string(&hb),
        stats: Stats {
            executions_completed: done,
            executions_failed: failed,
            started_at: opt_chars_to_string(&started),
        },
        config: WorkerConfig {
            orchestrator_url: chars_to_string(&url),
            polling_interval: poll,
            heartbeat_interval: hbi,
        },
    };
    proof {
        assert(parse_config_tail(ws@.stats, v@.skip(i22 as int)) == Some((ws@.stats, ws@.config)));
        assert(parse_stats_config(v@.skip(i13 as int)) == Some((ws@.stats, ws@.config)));
        assert(parse_worker_status_spec(v@) == Some(ws@));
    }
    Some(ws)
}

/// Parse the JSON text of a `KillResult`: one object with its two members
/// in their canonical order, in any rendering of the standard JSON
/// grammar for this shape, consuming the whole input.
pub open spec fn parse_kill_result_spec(s: Seq<char>) -> Option<KillResultV> {
    match p_tok(s, '{') {
        Some(r0) => match p_member_bool(r0, "killed"@) {
            Some(killed) => match p_tok(killed.1, ',') {
                Some(r1) => match p_member_opt_string(r1, "execution_id"@) {
                    Some(eid) => match p_tok(eid.1, '}') {
                        Some(r2) => if p_end(r2) {
                            Some(KillResultV { killed: killed.0, execution_id: eid.0 })
                        } else {
                            None
                        },
                        None => None,
                    },
                    None => None,
                },
                None => None,
            },
            None => None,
        },
        None => None,
    }
}

/// Decode a `KillResult` from JSON text.
pub fn parse_kill_result(s: &str) -> (r: Option<KillResult>)
    ensures
        match r {
            Some(k) => parse_kill_result_spec(s@) == Some(k@),
            None => parse_kill_result_spec(s@) is None,
        },
{
    let v = str_to_chars(s);
    proof {
        assert(v@.skip(0) =~= v@);
    }
    let i0 = match step_tok(&v, 0, '{') {
        Some(j) => j,
        None => {
            return None;
        },
    };
    let (killed, i1) = match step_member_bool(&v, i0, &str_to_chars("killed")) {
        Some(p) => p,
        None => {
            return None;
        },
    };
    let i2 = match step_tok(&v, i1, ',') {
        Some(j) => j,
        None => {
            return None;
        },
    };
    let (eid, i3) = match step_member_opt_string(&v, i2, &str_to_chars("execution_id")) {
        Some(p) => p,
        None => {
            return None;
        },
    };
    let i4 = match step_tok(&v, i3, '}') {
        Some(j) => j,
        None => {
            return None;
        },
    };
    if !step_end(&v, i4) {
        return None;
    }
    let k = KillResult { killed, execution_id: opt_chars_to_string(&eid) };
    proof {
        assert(parse_kill_result_spec(v@) == Some(k@));
    }
    Some(k)
}

/// The canonical JSON body pushed to the worker's config endpoint:
/// exactly the three fields the worker takes, credentials included.
pub open spec fn push_body_text(u: crate::config::ConfigUpdateV) -> Seq<char> {
    "{\"orchestrator_url\":\""@ + esc(u.orchestrator_url) + "\",\"api_key\":\""@ + esc(u.api_key)
        + "\",\"tenant_id\":\""@ + esc(u.tenant_id) + "\"}"@
}

/// Serialize the body for the worker's config endpoint.
pub fn encode_push_body(u: &ConfigUpdate) -> (s: String)
    ensures
        s@ == push_body_text(u@),
{
    let mut out: Vec<char> = Vec::new();
    let b1 = str_to_chars("{\"orchestrator_url\":\"");
    let b2 = str_to_chars("\",\"api_key\":\"");
    let b3 = str_to_chars("\",\"tenant_id\":\"");
    let b4 = str_to_chars("\"}");
    push_chars(&mut out, &b1);
    let url = str_to_chars(u.orchestrator_url.as_str());
    escape_into(&url, &mut out);
    push_chars(&mut out, &b2);
    let key = str_to_chars(u.api_key.as_str());
    escape_into(&key, &mut out);
    push_chars(&mut out, &b3);
    let tenant = str_to_chars(u.tenant_id.as_str());
    escape_into(&tenant, &mut out);
    push_chars(&mut out, &b4);
    proof {
        assert(out@ =~= push_body_text(u@));
    }
    chars_to_string(&out)
}

/// The worker's five endpoints.
#[derive(Clone, Copy, Debug, PartialEq, Eq, Structural)]
pub enum Endpoint {
    Status,
    Start,
    Stop,
    Kill,
    Config,
}

/// The fixed local base address of the worker's control service.
pub open spec fn worker_api_url_spec() -> Seq<char> {
    "http://127.0.0.1:8765"@
}

/// The path of an endpoint under the base address.
pub open spec fn endpoint_path_spec(e: Endpoint) -> Seq<char> {
    match e {
        Endpoint::Status => "/status"@,
        Endpoint::Start => "/start"@,
        Endpoint::Stop => "/stop"@,
        Endpoint::Kill => "/execution/kill"@,
        Endpoint::Config => "/config"@,
    }
}

/// The full URL of an endpoint.
pub fn endpoint_url(e: Endpoint) -> (s: String)
    ensures
        s@ == worker_api_url_spec() + endpoint_path_spec(e),
{
    let mut s = String::from_str("http://127.0.0.1:8765");
    match e {
        Endpoint::Status => s.append("/status"),
        Endpoint::Start => s.append("/start"),
        Endpoint::Stop => s.append("/stop"),
        Endpoint::Kill => s.append("/execution/kill"),
        Endpoint::Config => s.append("/config"),
    }
    s
}

/// Whether the endpoint is requested with GET; every other endpoint is
/// requested with POST.
pub fn endpoint_is_get(e: Endpoint) -> (b: bool)
    ensures
        b == (e == Endpoint::Status),
{
    match e {
        Endpoint::Status => true,
        _ => false,
    }
}

} // verus!
