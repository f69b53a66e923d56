//! The deployment pipeline of a hosted site, as a state machine: each
//! stage's outcome gives the log entry to write and the next stage.
use crate::nginx::obj::Reply;
use crate::text::{decimal, decimal_string};
use vstd::prelude::*;

verus! {

/// The stages of a deployment, in order.
#[derive(Clone, Copy, Debug, PartialEq, Eq, Structural)]
pub enum DeployStage {
    /// Clone the project.
    Clone,
    /// Copy the project's compose file.
    CopyCompose,
    /// Copy the project's Dockerfile.
    CopyDocker,
    /// Stop the running site (redeployments only).
    StopServer,
    /// Build the site.
    Build,
    /// Start the site.
    Deploy,
}

/// A log entry to write.
pub struct LogEntry {
    pub message: String,
    pub finished: bool,
    pub error: bool,
}

/// The entry to log for a stage's outcome, and the stage that follows
/// (`None` when the deployment has ended).
pub struct DeployStep {
    pub log: LogEntry,
    pub next: Option<DeployStage>,
}

/// The message logged when a stage succeeds.
pub open spec fn success_message(stage: DeployStage) -> Seq<char> {
    match stage {
        DeployStage::Clone => "Cloned Project Complete"@,
        DeployStage::CopyCompose => "Copied Build File 01"@,
        DeployStage::CopyDocker => "Copied Build File 02"@,
        DeployStage::StopServer => "Stopped the Server"@,
        DeployStage::Build => "Installed and Built the Website"@,
        DeployStage::Deploy => "Deployed the Server"@,
    }
}

/// The stage after a successful one; redeployments stop the running site
/// before building.
pub open spec fn next_stage(stage: DeployStage, stop_first: bool) -> Option<DeployStage> {
    match stage {
        DeployStage::Clone => Some(DeployStage::CopyCompose),
        DeployStage::CopyCompose => Some(DeployStage::CopyDocker),
        DeployStage::CopyDocker => if stop_first {
            Some(DeployStage::StopServer)
        } else {
            Some(DeployStage::Build)
        },
        DeployStage::StopServer => Some(DeployStage::Build),
        DeployStage::Build => Some(DeployStage::Deploy),
        DeployStage::Deploy => None,
    }
}

/// The message logged when a stage fails with a reply.
pub open spec fn failure_message(code: u16, message: Seq<char>) -> Seq<char> {
    "Error "@ + decimal(code as nat) + ": "@ + message
}

/// The message for a failed stage.
pub fn failure_text(code: u16, message: &str) -> (r: String)
    ensures
        r@ == failure_message(code, message@),
{
    let mut s = String::from_str("Error ");
    let c = decimal_string(code as u64);
    s.append(c.as_str());
    s.append(": ");
    s.append(message);
    s
}

fn success_text(stage: DeployStage) -> (r: String)
    ensures
        r@ == success_message(stage),
{
    match stage {
        DeployStage::Clone => String::from_str("Cloned Project Complete"),
        DeployStage::CopyCompose => String::from_str("Copied Build File 01"),
        DeployStage::CopyDocker => String::from_str("Copied Build File 02"),
        DeployStage::StopServer => String::from_str("Stopped the Server"),
        DeployStage::Build => String::from_str("Installed and Built the Website"),
        DeployStage::Deploy => String::from_str("Deployed the Server"),
    }
}

/// The state of the log and the stage that follows, after a stage that
/// succeeded (`ok`) or failed: (finished, failed, next stage).
pub open spec fn step_of(stage: DeployStage, ok: bool, stop_first: bool) -> (bool, bool, Option<DeployStage>) {
    if ok {
        (stage == DeployStage::Deploy, false, next_stage(stage, stop_first))
    } else {
        (true, true, None)
    }
}

/// Decides the step after a stage: a failure is logged as a finished,
/// failed entry and ends the deployment; a success is logged and leads to
/// the next stage, and the success of the last stage finishes the log.
pub fn deploy_step(stage: DeployStage, outcome: &Result<(), Reply>, stop_first: bool) -> (r: DeployStep)
    ensures
        (r.log.finished, r.log.error, r.next) == step_of(stage, outcome is Ok, stop_first),
        match outcome {
            Ok(()) => r.log.message@ == success_message(stage),
            Err((c, m)) => r.log.message@ == failure_message(*c, m@),
        },
{
    match outcome {
        Ok(()) => {
            let next = match stage {
                DeployStage::Clone => Some(DeployStage::CopyCompose),
                DeployStage::CopyCompose => Some(DeployStage::CopyDocker),
                DeployStage::CopyDocker => if stop_first {
                    Some(DeployStage::StopServer)
                } else {
                    Some(DeployStage::Build)
                },
                DeployStage::StopServer => Some(DeployStage::Build),
                DeployStage::Build => Some(DeployStage::Deploy),
                DeployStage::Deploy => None,
            };
            let finished = match stage {
                DeployStage::Deploy => true,
                _ => false,
            };
            DeployStep { log: LogEntry { message: success_text(stage), finished, error: false }, next }
        },
        Err((c, m)) => DeployStep {
            log: LogEntry { message: failure_text(*c, m.as_str()), finished: true, error: true },
            next: None,
        },
    }
}

/// The number of stages left after `stage` when every stage succeeds.
pub open spec fn stages_left(stage: DeployStage, stop_first: bool) -> nat {
    match stage {
        DeployStage::Clone => if stop_first { 5 } else { 4 },
        DeployStage::CopyCompose => if stop_first { 4 } else { 3 },
        DeployStage::CopyDocker => if stop_first { 3 } else { 2 },
        DeployStage::StopServer => 2,
        DeployStage::Build => 1,
        DeployStage::Deploy => 0,
    }
}

/// A step ends the deployment exactly when its entry finishes the log, and
/// its entry is an error exactly when the stage failed; every step that
/// goes on leads to a stage with fewer stages left, so a deployment ends.
pub proof fn lemma_step_ends_with_log(stage: DeployStage, ok: bool, stop_first: bool)
    ensures
        step_of(stage, ok, stop_first).2 is None <==> step_of(stage, ok, stop_first).0,
        step_of(stage, ok, stop_first).1 <==> !ok,
        step_of(stage, ok, stop_first).2 matches Some(n) ==> stages_left(n, stop_first) < stages_left(
            stage,
            stop_first,
        ),
{
}

/// The stages of a deployment in which every stage succeeds, in order:
/// clone, copy the compose file, copy the Dockerfile, stop the running
/// site (redeployments only), build, start.
pub open spec fn deploy_order(stop_first: bool) -> Seq<DeployStage> {
    if stop_first {
        seq![
            DeployStage::Clone,
            DeployStage::CopyCompose,
            DeployStage::CopyDocker,
            DeployStage::StopServer,
            DeployStage::Build,
            DeployStage::Deploy,
        ]
    } else {
        seq![
            DeployStage::Clone,
            DeployStage::CopyCompose,
            DeployStage::CopyDocker,
            DeployStage::Build,
            DeployStage::Deploy,
        ]
    }
}

/// A deployment whose stages all succeed runs them in `deploy_order`: each
/// success leads to the next stage of that order and the last one ends the
/// deployment. In particular the site is always built before it is
/// started: only a successful build leads to starting it, and stopping the
/// running site (or, on a first install, copying the Dockerfile) leads to
/// the build.
pub proof fn lemma_deploy_order(stop_first: bool, stage: DeployStage)
    ensures
        forall|i: int|
            0 <= i < deploy_order(stop_first).len() - 1 ==> step_of(#[trigger] deploy_order(stop_first)[i], true, stop_first).2
                == Some(deploy_order(stop_first)[i + 1]),
        step_of(DeployStage::Deploy, true, stop_first).2 is None,
        step_of(stage, true, stop_first).2 == Some(DeployStage::Deploy) <==> stage == DeployStage::Build,
        step_of(stage, true, stop_first).2 == Some(DeployStage::Build) <==> (stage == DeployStage::StopServer || (
        stage == DeployStage::CopyDocker && !stop_first)),
        step_of(stage, true, stop_first).2 == Some(DeployStage::StopServer) <==> (stage == DeployStage::CopyDocker
            && stop_first),
{
    let o = deploy_order(stop_first);
    assert forall|i: int| 0 <= i < o.len() - 1 implies step_of(#[trigger] o[i], true, stop_first).2 == Some(o[i + 1]) by {
        if stop_first {
            assert(o[0] == DeployStage::Clone && o[1] == DeployStage::CopyCompose && o[2] == DeployStage::CopyDocker
                && o[3] == DeployStage::StopServer && o[4] == DeployStage::Build && o[5] == DeployStage::Deploy);
        } else {
            assert(o[0] == DeployStage::Clone && o[1] == DeployStage::CopyCompose && o[2] == DeployStage::CopyDocker
                && o[3] == DeployStage::Build && o[4] == DeployStage::Deploy);
        }
    }
}

} // verus!
