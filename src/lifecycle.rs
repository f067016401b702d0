use vstd::prelude::*;
use crate::backup::gated;
use crate::config::{ConfigView, ServerConfig};
use crate::plan::{start, step, step_views, Command, Gate, Op, Run, Step, StepView};

verus! {

pub open spec fn start_server_plan(c: ConfigView, detached: bool) -> Seq<StepView> {
    seq![gated(Op::RunScript { path: c.start_script, detached })]
}

pub open spec fn stop_server_plan(c: ConfigView) -> Seq<StepView> {
    seq![gated(Op::RunScript { path: c.stop_script, detached: false })]
}

/// Starting the server through its start script, which leaves the operator
/// attached to the server's session unless `detached`.
pub fn start_minecraft_server(config: &ServerConfig, detached: bool) -> (r: Run)
    ensures
        r@ == start(start_server_plan(config@, detached)),
{
    let mut v: Vec<Step> = Vec::new();
    v.push(step(Command::RunScript { path: config.start_script.clone(), detached }, Gate::OnSuccess));
    assert(step_views(v@) =~= start_server_plan(config@, detached));
    Run::new(v)
}

/// Stopping the server through its stop script.
pub fn stop_minecraft_server(config: &ServerConfig) -> (r: Run)
    ensures
        r@ == start(stop_server_plan(config@)),
{
    let mut v: Vec<Step> = Vec::new();
    v.push(
        step(Command::RunScript { path: config.stop_script.clone(), detached: false }, Gate::OnSuccess),
    );
    assert(step_views(v@) =~= stop_server_plan(config@));
    Run::new(v)
}

} // verus!
