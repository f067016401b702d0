use vstd::prelude::*;
use crate::config::{ConfigView, ServerConfig};
use crate::plan::{
    issued, lemma_run_completes, lemma_run_stops_at_gate, passes, replay, start, step, step_views,
    Command, Gate, Op, Run, Step, StepView,
};
use crate::timestamp::{digit_char, is_digit, Timestamp};

verus! {

/// The remote-console query that serves as the liveness probe.
pub const PROBE: &'static str = "list";

pub const SAVE_OFF: &'static str = "save-off";

pub const SAVE_ALL: &'static str = "save-all";

pub const SAVE_ON: &'static str = "save-on";

pub const NOTICE_START: &'static str = "execute as @a run tellraw @p {text:\"Creating Server Backup...\",color:\"#FF6600\"}";

pub const NOTICE_SAVE_OFF: &'static str = "execute as @a run tellraw @p {text:\"=> Disabled auto-writing from RAM to DISK\",color:\"#A094FF\"}";

pub const NOTICE_FLUSH: &'static str = "execute as @a run tellraw @p {text:\"=> Flushing DISK to RAM...\",color:\"#A094FF\"}";

pub const NOTICE_FLUSHED: &'static str = "execute as @a run tellraw @p {text:\"=> => Flushed DISK to RAM\",color:\"#A094FF\"}";

pub const NOTICE_COMPRESS: &'static str = "execute as @a run tellraw @p {text:\"=> Compressing world folder...\",color:\"#A094FF\"}";

pub const NOTICE_COMPRESSED: &'static str = "execute as @a run tellraw @p {text:\"=> => World folder compressed and saved\",color:\"#A094FF\"}";

pub const NOTICE_SAVE_ON: &'static str = "execute as @a run tellraw @p {text:\"=> Enabled auto-writing from RAM to DISK\",color:\"#A094FF\"}";

pub const NOTICE_DONE_HEAD: &'static str = "execute as @a run tellraw @p {\"text\":\"Backup complete: ";

pub const NOTICE_DONE_TAIL: &'static str = "\",\"color\":\"dark_green\"}";

/// How long the server is given to finish writing the world after a flush.
pub const FLUSH_GRACE_SECONDS: u64 = 10;

/// `world_backup_<YYYY-MM-DD_HH-MM-SS>.tar.gz`.
pub open spec fn artifact_name(t: Timestamp) -> Seq<char> {
    "world_backup_"@ + t.text() + ".tar.gz"@
}

/// Where the archive of a backup taken at `t` is written.
pub open spec fn artifact_path(c: ConfigView, t: Timestamp) -> Seq<char> {
    c.backup_dir + seq!['/'] + artifact_name(t)
}

pub open spec fn done_notice(name: Seq<char>) -> Seq<char> {
    NOTICE_DONE_HEAD@ + name + NOTICE_DONE_TAIL@
}

pub open spec fn gated(op: Op) -> StepView {
    StepView { op, gate: Gate::OnSuccess }
}

pub open spec fn console(password: Seq<char>, text: Seq<char>) -> StepView {
    gated(Op::Rcon { password, text })
}

/// The backup sequence: each step is issued only if every step before it
/// succeeded.
pub open spec fn backup_plan(c: ConfigView, password: Seq<char>, t: Timestamp) -> Seq<StepView> {
    seq![
        console(password, PROBE@),
        console(password, NOTICE_START@),
        console(password, SAVE_OFF@),
        console(password, NOTICE_SAVE_OFF@),
        console(password, NOTICE_FLUSH@),
        console(password, SAVE_ALL@),
        gated(Op::Pause { seconds: FLUSH_GRACE_SECONDS as nat }),
        console(password, NOTICE_FLUSHED@),
        gated(Op::MakeDir { path: c.backup_dir }),
        console(password, NOTICE_COMPRESS@),
        gated(Op::Archive { dest: artifact_path(c, t), source: c.world_dir }),
        console(password, NOTICE_COMPRESSED@),
        console(password, SAVE_ON@),
        console(password, NOTICE_SAVE_ON@),
        console(password, done_notice(artifact_name(t))),
    ]
}

/// The position of the archival step in [`backup_plan`].
pub open spec fn archive_index() -> int {
    10
}

fn rcon(password: &str, text: &str) -> (r: Command)
    ensures
        r@ == (Op::Rcon { password: password@, text: text@ }),
{
    Command::Rcon { password: String::from_str(password), text: String::from_str(text) }
}

/// The file name of the archive of a backup taken at `stamp`.
pub fn artifact_file_name(stamp: &Timestamp) -> (r: String)
    requires
        stamp.wf(),
    ensures
        r@ == artifact_name(*stamp),
{
    let text = stamp.format();
    let mut r = String::from_str("world_backup_");
    r.append(text.as_str());
    r.append(".tar.gz");
    r
}

/// The backup of the world at the time `stamp`, as a run of commands.
pub fn backup_minecraft_server(config: &ServerConfig, rcon_password: &str, stamp: &Timestamp) -> (r:
    Run)
    requires
        stamp.wf(),
    ensures
        r@ == start(backup_plan(config@, rcon_password@, *stamp)),
{
    let pw = rcon_password;
    let name = artifact_file_name(stamp);
    let mut dest = config.backup_dir.clone();
    dest.append("/");
    proof {
        reveal_strlit("/");
        assert("/"@ =~= seq!['/']);
    }
    dest.append(name.as_str());
    assert(dest@ =~= artifact_path(config@, *stamp));
    let mut done = String::from_str(NOTICE_DONE_HEAD);
    done.append(name.as_str());
    done.append(NOTICE_DONE_TAIL);

    let mut v: Vec<Step> = Vec::new();
    v.push(step(rcon(pw, PROBE), Gate::OnSuccess));
    v.push(step(rcon(pw, NOTICE_START), Gate::OnSuccess));
    v.push(step(rcon(pw, SAVE_OFF), Gate::OnSuccess));
    v.push(step(rcon(pw, NOTICE_SAVE_OFF), Gate::OnSuccess));
    v.push(step(rcon(pw, NOTICE_FLUSH), Gate::OnSuccess));
    v.push(step(rcon(pw, SAVE_ALL), Gate::OnSuccess));
    v.push(step(Command::Pause { seconds: FLUSH_GRACE_SECONDS }, Gate::OnSuccess));
    v.push(step(rcon(pw, NOTICE_FLUSHED), Gate::OnSuccess));
    v.push(step(Command::MakeDir { path: config.backup_dir.clone() }, Gate::OnSuccess));
    v.push(step(rcon(pw, NOTICE_COMPRESS), Gate::OnSuccess));
    v.push(step(Command::Archive { dest, source: config.world_dir.clone() }, Gate::OnSuccess));
    v.push(step(rcon(pw, NOTICE_COMPRESSED), Gate::OnSuccess));
    v.push(step(rcon(pw, SAVE_ON), Gate::OnSuccess));
    v.push(step(rcon(pw, NOTICE_SAVE_ON), Gate::OnSuccess));
    v.push(step(rcon(pw, done.as_str()), Gate::OnSuccess));
    assert(step_views(v@) =~= backup_plan(config@, rcon_password@, *stamp));
    Run::new(v)
}

/// `world_backup_YYYY-MM-DD_HH-MM-SS.tar.gz`, each `Y`, `M`, `D`, `H`, `S` a
/// decimal digit.
pub open spec fn matches_artifact_pattern(s: Seq<char>) -> bool {
    &&& s.len() == 39
    &&& s.subrange(0, 13) == "world_backup_"@
    &&& s.subrange(32, 39) == ".tar.gz"@
    &&& s[17] == '-' && s[20] == '-' && s[23] == '_' && s[26] == '-' && s[29] == '-'
    &&& forall|k: int|
        13 <= k < 32 && k != 17 && k != 20 && k != 23 && k != 26 && k != 29 ==> is_digit(
            #[trigger] s[k],
        )
}

/// The archive's file name always has the shape
/// `world_backup_YYYY-MM-DD_HH-MM-SS.tar.gz`.
pub proof fn lemma_artifact_name_pattern(t: Timestamp)
    requires
        t.wf(),
    ensures
        matches_artifact_pattern(artifact_name(t)),
{
    reveal_strlit("world_backup_");
    reveal_strlit(".tar.gz");
    let s = artifact_name(t);
    assert(forall|d: nat| is_digit(#[trigger] digit_char(d)));
    assert(t.text().len() == 19);
    assert(s.subrange(0, 13) =~= "world_backup_"@);
    assert(s.subrange(32, 39) =~= ".tar.gz"@);
    assert forall|k: int|
        13 <= k < 32 && k != 17 && k != 20 && k != 23 && k != 26 && k != 29 implies is_digit(
        #[trigger] s[k],
    ) by {
        assert(s[k] == t.text()[k - 13]);
    }
}

/// Every step of the backup sequence goes on only where it succeeded.
pub proof fn lemma_backup_steps_gated(c: ConfigView, password: Seq<char>, t: Timestamp)
    ensures
        forall|j: int|
            0 <= j < backup_plan(c, password, t).len() ==> (#[trigger] backup_plan(
                c,
                password,
                t,
            )[j]).gate == Gate::OnSuccess,
{
}

/// Where a step of the backup reports failure, the backup ends without
/// completing, and the steps issued are that step and those before it: none
/// after it.
pub proof fn lemma_backup_stops_at_failure(
    c: ConfigView,
    password: Seq<char>,
    t: Timestamp,
    results: Seq<bool>,
    i: nat,
)
    requires
        i < backup_plan(c, password, t).len(),
        i < results.len(),
        forall|j: int| 0 <= j < i ==> results[j],
        !results[i as int],
    ensures
        replay(start(backup_plan(c, password, t)), results).outcome == Some(false),
        issued(replay(start(backup_plan(c, password, t)), results)) == backup_plan(
            c,
            password,
            t,
        ).take(i + 1int),
{
    let p = backup_plan(c, password, t);
    let s = start(p);
    lemma_backup_steps_gated(c, password, t);
    assert forall|j: int| 0 <= j < i implies passes(#[trigger] s.steps[s.next + j].gate, results[j]) by {
        assert(s.steps[s.next + j] == p[j]);
    }
    assert(s.steps[s.next + i as int] == p[i as int]);
    lemma_run_stops_at_gate(s, results, i);
}

/// Where the liveness probe fails, it is the only command issued, and the
/// backup fails.
pub proof fn lemma_backup_probe_failure(
    c: ConfigView,
    password: Seq<char>,
    t: Timestamp,
    results: Seq<bool>,
)
    requires
        results.len() >= 1,
        !results[0],
    ensures
        replay(start(backup_plan(c, password, t)), results).outcome == Some(false),
        issued(replay(start(backup_plan(c, password, t)), results)) == seq![
            console(password, PROBE@),
        ],
{
    lemma_backup_stops_at_failure(c, password, t, results, 0);
    assert(backup_plan(c, password, t).take(1) =~= seq![console(password, PROBE@)]);
}

/// Where every step succeeds, the backup completes with every step issued,
/// and exactly one of them archives: the world directory, into the artifact
/// path under the backup directory.
pub proof fn lemma_backup_completes(
    c: ConfigView,
    password: Seq<char>,
    t: Timestamp,
    results: Seq<bool>,
)
    requires
        backup_plan(c, password, t).len() <= results.len(),
        forall|j: int| 0 <= j < backup_plan(c, password, t).len() ==> results[j],
    ensures
        replay(start(backup_plan(c, password, t)), results).outcome == Some(true),
        issued(replay(start(backup_plan(c, password, t)), results)) == backup_plan(c, password, t),
        backup_plan(c, password, t)[archive_index()].op == (Op::Archive {
            dest: artifact_path(c, t),
            source: c.world_dir,
        }),
        forall|j: int|
            0 <= j < backup_plan(c, password, t).len() && j != archive_index() ==> !((
            #[trigger] backup_plan(c, password, t)[j]).op is Archive),
        artifact_path(c, t).take(c.backup_dir.len() + 1int) == c.backup_dir.push('/'),
{
    let p = backup_plan(c, password, t);
    let s = start(p);
    lemma_backup_steps_gated(c, password, t);
    assert forall|j: int| 0 <= j < s.steps.len() - s.next implies passes(
        #[trigger] s.steps[s.next + j].gate,
        results[j],
    ) by {
        assert(s.steps[s.next + j] == p[j]);
    }
    lemma_run_completes(s, results);
    assert(issued(replay(s, results)) =~= p);
    assert(artifact_path(c, t).take(c.backup_dir.len() + 1int) =~= c.backup_dir.push('/'));
}

} // verus!
