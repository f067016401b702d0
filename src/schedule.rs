use vstd::prelude::*;
use crate::backup::{gated, NOTICE_SAVE_ON, SAVE_ON};
use crate::config::{ConfigView, ServerConfig};
use crate::plan::{
    issued, lemma_run_completes, lemma_run_stops_at_gate, passes, mutates_sessions, replay, start, step, step_views, Command,
    Gate, Op, Run, Step, StepView,
};
use crate::timestamp::{decimal_string, decimal_text};

verus! {

/// The interval of `seconds + 60 * minutes + 3600 * hours + 86400 * days`
/// seconds, or `None` where one of the four is negative.
pub fn interval_seconds(seconds: i32, minutes: i32, hours: i32, days: i32) -> (r: Option<u64>)
    ensures
        r is Some <==> seconds >= 0 && minutes >= 0 && hours >= 0 && days >= 0,
        r matches Some(n) ==> n == seconds + 60 * minutes + 3600 * hours + 86400 * days,
{
    if seconds < 0 || minutes < 0 || hours < 0 || days < 0 {
        return None;
    }
    let total: u64 = seconds as u64 + 60 * (minutes as u64) + 3600 * (hours as u64) + 86400 * (
    days as u64);
    Some(total)
}

/// What is typed into the session to start recurring backups:
/// `<script> -s <seconds> -p <password>`.
pub open spec fn schedule_keys(c: ConfigView, password: Seq<char>, seconds: nat) -> Seq<char> {
    c.schedule_script + " -s "@ + decimal_text(seconds) + " -p "@ + password
}

/// Starting recurring backups: only where no session of the configured name
/// exists is one created and the repeating script started in it; the operator
/// is then attached to it unless `detached`.
pub open spec fn start_schedule_plan(
    c: ConfigView,
    password: Seq<char>,
    seconds: nat,
    detached: bool,
) -> Seq<StepView> {
    let setup = seq![
        StepView { op: Op::HasSession { name: c.session_name }, gate: Gate::OnFailure },
        gated(Op::NewSession { name: c.session_name }),
        gated(Op::SendKeys { name: c.session_name, keys: schedule_keys(c, password, seconds) }),
    ];
    if detached {
        setup
    } else {
        setup.push(gated(Op::Attach { name: c.session_name }))
    }
}

/// Stopping recurring backups: only where the session exists, autosave is
/// turned back on and the players told, whatever those two report, and then
/// the session is terminated.
pub open spec fn stop_schedule_plan(c: ConfigView, password: Seq<char>) -> Seq<StepView> {
    seq![
        gated(Op::HasSession { name: c.session_name }),
        StepView { op: Op::Rcon { password, text: SAVE_ON@ }, gate: Gate::Always },
        StepView { op: Op::Rcon { password, text: NOTICE_SAVE_ON@ }, gate: Gate::Always },
        gated(Op::KillSession { name: c.session_name }),
    ]
}

/// Recurring backups every `interval_seconds` seconds, as a run of commands.
pub fn start_schedule_minecraft_server_backups(
    config: &ServerConfig,
    rcon_password: &str,
    interval_seconds: u64,
    detached: bool,
) -> (r: Run)
    ensures
        r@ == start(
            start_schedule_plan(config@, rcon_password@, interval_seconds as nat, detached),
        ),
{
    let mut keys = config.schedule_script.clone();
    keys.append(" -s ");
    let secs = decimal_string(interval_seconds);
    keys.append(secs.as_str());
    keys.append(" -p ");
    keys.append(rcon_password);
    assert(keys@ =~= schedule_keys(config@, rcon_password@, interval_seconds as nat));

    let mut v: Vec<Step> = Vec::new();
    v.push(step(Command::HasSession { name: config.session_name.clone() }, Gate::OnFailure));
    v.push(step(Command::NewSession { name: config.session_name.clone() }, Gate::OnSuccess));
    v.push(
        step(
            Command::SendKeys { name: config.session_name.clone(), keys },
            Gate::OnSuccess,
        ),
    );
    if !detached {
        v.push(step(Command::Attach { name: config.session_name.clone() }, Gate::OnSuccess));
    }
    assert(step_views(v@) =~= start_schedule_plan(
        config@,
        rcon_password@,
        interval_seconds as nat,
        detached,
    ));
    Run::new(v)
}

/// Stopping recurring backups, as a run of commands.
pub fn stop_scheduled_minecraft_server_backups(config: &ServerConfig, rcon_password: &str) -> (r:
    Run)
    ensures
        r@ == start(stop_schedule_plan(config@, rcon_password@)),
{
    let mut v: Vec<Step> = Vec::new();
    v.push(step(Command::HasSession { name: config.session_name.clone() }, Gate::OnSuccess));
    v.push(
        step(
            Command::Rcon {
                password: String::from_str(rcon_password),
                text: String::from_str(SAVE_ON),
            },
            Gate::Always,
        ),
    );
    v.push(
        step(
            Command::Rcon {
                password: String::from_str(rcon_password),
                text: String::from_str(NOTICE_SAVE_ON),
            },
            Gate::Always,
        ),
    );
    v.push(step(Command::KillSession { name: config.session_name.clone() }, Gate::OnSuccess));
    assert(step_views(v@) =~= stop_schedule_plan(config@, rcon_password@));
    Run::new(v)
}

/// Where a session of the configured name already exists, starting recurring
/// backups asks only that question: no command that creates, feeds, attaches
/// to or kills a session is issued.
pub proof fn lemma_start_schedule_noop_when_present(
    c: ConfigView,
    password: Seq<char>,
    seconds: nat,
    detached: bool,
    results: Seq<bool>,
)
    requires
        results.len() >= 1,
        results[0],
    ensures
        issued(replay(start(start_schedule_plan(c, password, seconds, detached)), results)) == seq![
            StepView { op: Op::HasSession { name: c.session_name }, gate: Gate::OnFailure },
        ],
        forall|k: int|
            0 <= k < issued(
                replay(start(start_schedule_plan(c, password, seconds, detached)), results),
            ).len() ==> !mutates_sessions(
                #[trigger] issued(
                    replay(start(start_schedule_plan(c, password, seconds, detached)), results),
                )[k].op,
            ),
{
    let p = start_schedule_plan(c, password, seconds, detached);
    let s = start(p);
    assert(s.steps[s.next + 0int] == p[0]);
    lemma_run_stops_at_gate(s, results, 0);
    assert(issued(replay(s, results)) =~= seq![p[0]]);
}

/// Where no session of the configured name exists, stopping recurring backups
/// asks only that question: nothing is sent to the server and no session is
/// touched.
pub proof fn lemma_stop_schedule_noop_when_absent(
    c: ConfigView,
    password: Seq<char>,
    results: Seq<bool>,
)
    requires
        results.len() >= 1,
        !results[0],
    ensures
        issued(replay(start(stop_schedule_plan(c, password)), results)) == seq![
            gated(Op::HasSession { name: c.session_name }),
        ],
{
    let p = stop_schedule_plan(c, password);
    let s = start(p);
    assert(s.steps[s.next + 0int] == p[0]);
    lemma_run_stops_at_gate(s, results, 0);
    assert(issued(replay(s, results)) =~= seq![p[0]]);
}

/// Where the session exists, stopping recurring backups issues every step,
/// the session's termination included, whatever the remote console reports;
/// it completes exactly where the termination succeeds.
pub proof fn lemma_stop_schedule_kills_session(c: ConfigView, password: Seq<char>, results: Seq<bool>)
    requires
        results.len() >= 4,
        results[0],
    ensures
        issued(replay(start(stop_schedule_plan(c, password)), results)) == stop_schedule_plan(
            c,
            password,
        ),
        replay(start(stop_schedule_plan(c, password)), results).outcome == Some(results[3]),
{
    let p = stop_schedule_plan(c, password);
    let s = start(p);
    assert forall|j: int| 0 <= j < 3 implies passes(#[trigger] s.steps[s.next + j].gate, results[j]) by {
        assert(s.steps[s.next + j] == p[j]);
    }
    assert(s.steps[s.next + 3int] == p[3]);
    if results[3] {
        lemma_run_completes(s, results);
    } else {
        lemma_run_stops_at_gate(s, results, 3);
    }
    assert(issued(replay(s, results)) =~= p);
}

} // verus!
