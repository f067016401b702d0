use vstd::prelude::*;

verus! {

/// An external command that the tool issues. Each one either succeeds or fails.
#[derive(Debug)]
pub enum Command {
    /// Runs `text` on the server's remote console, authenticated by `password`.
    Rcon { password: String, text: String },
    /// Waits for this many seconds; it always succeeds.
    Pause { seconds: u64 },
    /// Creates the directory, with any missing parents.
    MakeDir { path: String },
    /// Writes a compressed archive of the directory `source` to the file `dest`.
    Archive { dest: String, source: String },
    /// Asks the session manager whether the named session exists: success means
    /// that it does.
    HasSession { name: String },
    /// Creates the named session, detached.
    NewSession { name: String },
    /// Types `keys` into the named session, followed by Enter.
    SendKeys { name: String, keys: String },
    /// Hands the terminal to the named session until the operator leaves it.
    Attach { name: String },
    /// Terminates the named session.
    KillSession { name: String },
    /// Runs the shell script at `path`, with the detached flag where asked.
    RunScript { path: String, detached: bool },
}

/// What a [`Command`] holds, as mathematical values.
pub enum Op {
    Rcon { password: Seq<char>, text: Seq<char> },
    Pause { seconds: nat },
    MakeDir { path: Seq<char> },
    Archive { dest: Seq<char>, source: Seq<char> },
    HasSession { name: Seq<char> },
    NewSession { name: Seq<char> },
    SendKeys { name: Seq<char>, keys: Seq<char> },
    Attach { name: Seq<char> },
    KillSession { name: Seq<char> },
    RunScript { path: Seq<char>, detached: bool },
}

impl View for Command {
    type V = Op;

    open spec fn view(&self) -> Op {
        match self {
            Command::Rcon { password, text } => Op::Rcon { password: password@, text: text@ },
            Command::Pause { seconds } => Op::Pause { seconds: *seconds as nat },
            Command::MakeDir { path } => Op::MakeDir { path: path@ },
            Command::Archive { dest, source } => Op::Archive { dest: dest@, source: source@ },
            Command::HasSession { name } => Op::HasSession { name: name@ },
            Command::NewSession { name } => Op::NewSession { name: name@ },
            Command::SendKeys { name, keys } => Op::SendKeys { name: name@, keys: keys@ },
            Command::Attach { name } => Op::Attach { name: name@ },
            Command::KillSession { name } => Op::KillSession { name: name@ },
            Command::RunScript { path, detached } => Op::RunScript { path: path@, detached: *detached },
        }
    }
}

/// Whether a command changes the set of sessions or what runs in them.
pub open spec fn mutates_sessions(op: Op) -> bool {
    ||| op is NewSession
    ||| op is SendKeys
    ||| op is Attach
    ||| op is KillSession
}

/// Which outcome of a step lets the run go on to the next step. On the other
/// outcome the run ends without completing.
#[derive(Clone, Copy, Debug, PartialEq, Eq, Structural)]
pub enum Gate {
    OnSuccess,
    OnFailure,
    Always,
}

pub open spec fn passes(gate: Gate, succeeded: bool) -> bool {
    match gate {
        Gate::OnSuccess => succeeded,
        Gate::OnFailure => !succeeded,
        Gate::Always => true,
    }
}

/// Whether the run goes on after a step with `gate` reported `succeeded`.
pub fn passes_gate(gate: Gate, succeeded: bool) -> (r: bool)
    ensures
        r == passes(gate, succeeded),
{
    match gate {
        Gate::OnSuccess => succeeded,
        Gate::OnFailure => !succeeded,
        Gate::Always => true,
    }
}

/// A command together with its gate.
#[derive(Debug)]
pub struct Step {
    pub command: Command,
    pub gate: Gate,
}

pub struct StepView {
    pub op: Op,
    pub gate: Gate,
}

impl View for Step {
    type V = StepView;

    open spec fn view(&self) -> StepView {
        StepView { op: self.command@, gate: self.gate }
    }
}

pub fn step(command: Command, gate: Gate) -> (r: Step)
    ensures
        r@ == (StepView { op: command@, gate }),
{
    Step { command, gate }
}

pub open spec fn step_views(steps: Seq<Step>) -> Seq<StepView> {
    steps.map_values(|s: Step| s@)
}

/// The state of a run: its steps, how many of them have been issued, and, once
/// it has ended, whether it completed.
pub struct RunView {
    pub steps: Seq<StepView>,
    pub next: nat,
    pub outcome: Option<bool>,
}

/// A run of `steps` before any has been issued. A run of no steps has
/// completed.
pub open spec fn start(steps: Seq<StepView>) -> RunView {
    RunView { steps, next: 0, outcome: if steps.len() == 0 { Some(true) } else { None } }
}

/// The run after its current step reported `succeeded`. A run that has ended
/// stays as it is.
pub open spec fn after(s: RunView, succeeded: bool) -> RunView {
    if s.outcome is Some || s.next >= s.steps.len() {
        s
    } else if !passes(s.steps[s.next as int].gate, succeeded) {
        RunView { steps: s.steps, next: s.next + 1, outcome: Some(false) }
    } else if s.next + 1 == s.steps.len() {
        RunView { steps: s.steps, next: s.next + 1, outcome: Some(true) }
    } else {
        RunView { steps: s.steps, next: s.next + 1, outcome: None }
    }
}

/// The run after its steps reported `results`, one after the other.
pub open spec fn replay(s: RunView, results: Seq<bool>) -> RunView
    decreases results.len(),
{
    if results.len() == 0 {
        s
    } else {
        replay(after(s, results[0]), results.drop_first())
    }
}

/// The steps issued so far, in order.
pub open spec fn issued(s: RunView) -> Seq<StepView> {
    s.steps.take(s.next as int)
}

/// A procedure in progress. The caller issues [`Run::current`], reports its
/// result with [`Run::advance`], and repeats until [`Run::outcome`] is known.
pub struct Run {
    steps: Vec<Step>,
    next: usize,
    outcome: Option<bool>,
}

impl View for Run {
    type V = RunView;

    closed spec fn view(&self) -> RunView {
        RunView { steps: step_views(self.steps@), next: self.next as nat, outcome: self.outcome }
    }
}

impl Run {
    pub fn new(steps: Vec<Step>) -> (r: Run)
        ensures
            r@ == start(step_views(steps@)),
    {
        let outcome = if steps.len() == 0 { Some(true) } else { None };
        Run { steps, next: 0, outcome }
    }

    /// The command to issue now, or `None` once the run has ended.
    pub fn current(&self) -> (r: Option<&Command>)
        ensures
            r is Some <==> self@.outcome is None && self@.next < self@.steps.len(),
            r matches Some(c) ==> c@ == self@.steps[self@.next as int].op,
    {
        if self.outcome.is_none() && self.next < self.steps.len() {
            Some(&self.steps[self.next].command)
        } else {
            None
        }
    }

    /// Records whether the current command succeeded.
    pub fn advance(&mut self, succeeded: bool)
        ensures
            final(self)@ == after(old(self)@, succeeded),
    {
        if self.outcome.is_some() || self.next >= self.steps.len() {
            return;
        }
        let go_on = passes_gate(self.steps[self.next].gate, succeeded);
        self.next = self.next + 1;
        if !go_on {
            self.outcome = Some(false);
        } else if self.next == self.steps.len() {
            self.outcome = Some(true);
        }
    }

    /// `Some(true)` once every step has passed its gate, `Some(false)` once one
    /// has not, `None` while the run goes on.
    pub fn outcome(&self) -> (r: Option<bool>)
        ensures
            r == self@.outcome,
    {
        self.outcome
    }

    /// How many commands have been issued.
    pub fn issued_count(&self) -> (r: usize)
        ensures
            r == self@.next,
    {
        self.next
    }
}

/// A run that has ended stays as it is, whatever is reported to it.
pub proof fn lemma_ended_run_stays(s: RunView, results: Seq<bool>)
    requires
        s.outcome is Some,
    ensures
        replay(s, results) == s,
    decreases results.len(),
{
    if results.len() > 0 {
        lemma_ended_run_stays(after(s, results[0]), results.drop_first());
    }
}

/// Once a step's result does not pass its gate, the run ends without
/// completing, and no step after that one is issued: where every step before
/// step `next + i` passed and that step did not, exactly `i + 1` more steps
/// were issued.
pub proof fn lemma_run_stops_at_gate(s: RunView, results: Seq<bool>, i: nat)
    requires
        s.outcome is None,
        s.next + i < s.steps.len(),
        i < results.len(),
        forall|j: int| 0 <= j < i ==> passes(#[trigger] s.steps[s.next + j].gate, results[j]),
        !passes(s.steps[s.next + i as int].gate, results[i as int]),
    ensures
        replay(s, results).outcome == Some(false),
        replay(s, results).next == s.next + i + 1,
        replay(s, results).steps == s.steps,
    decreases i,
{
    let t = after(s, results[0]);
    if i == 0 {
        lemma_ended_run_stays(t, results.drop_first());
    } else {
        assert(passes(s.steps[s.next + 0int].gate, results[0int]));
        assert forall|j: int| 0 <= j < i - 1 implies passes(
            #[trigger] t.steps[t.next + j].gate,
            results.drop_first()[j],
        ) by {
            assert(t.next + j == s.next + (j + 1));
            assert(passes(s.steps[s.next + (j + 1)].gate, results[j + 1]));
        }
        assert(t.next + (i - 1) == s.next + i);
        lemma_run_stops_at_gate(t, results.drop_first(), (i - 1) as nat);
    }
}

/// Where every remaining step passes its gate, the run completes with every
/// step issued.
pub proof fn lemma_run_completes(s: RunView, results: Seq<bool>)
    requires
        s.outcome is None,
        s.next < s.steps.len(),
        s.steps.len() - s.next <= results.len(),
        forall|j: int|
            0 <= j < s.steps.len() - s.next ==> passes(#[trigger] s.steps[s.next + j].gate, results[j]),
    ensures
        replay(s, results).outcome == Some(true),
        replay(s, results).next == s.steps.len(),
        replay(s, results).steps == s.steps,
    decreases s.steps.len() - s.next,
{
    let t = after(s, results[0]);
    assert(passes(s.steps[s.next + 0int].gate, results[0int]));
    if s.next + 1 == s.steps.len() {
        lemma_ended_run_stays(t, results.drop_first());
    } else {
        assert forall|j: int| 0 <= j < t.steps.len() - t.next implies passes(
            #[trigger] t.steps[t.next + j].gate,
            results.drop_first()[j],
        ) by {
            assert(t.next + j == s.next + (j + 1));
            assert(passes(s.steps[s.next + (j + 1)].gate, results[j + 1]));
        }
        lemma_run_completes(t, results.drop_first());
    }
}

} // verus!
