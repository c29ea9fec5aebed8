//! The privilege-transition and namespace-entry core, as an explicit state
//! machine.
//!
//! One invocation of the `run` subcommand is a strictly ordered sequence:
//! validate the namespace name, assert root identity (effective, then
//! real), open the namespace's backing file, switch the process's network
//! namespace, drop back to the caller's identity (real first, then
//! effective), and only then launch the caller's command. The machine below
//! fixes that order: it tells the unverified binary which system call to
//! make next, consumes the call's result, and aborts for good the moment
//! any step fails. The central invariant — privilege moves one way,
//! `Initial` to `Escalated` to `Dropped`, and the command can only ever be
//! launched after the drop — is stated and proved here.

use vstd::prelude::*;
use vstd::string::StringExecFns;

use crate::errors::{TokenClass, ToolError};
use crate::validate::{valid_identifier, validate_token};

verus! {

/// The process-wide privilege mode, in the order it may change.
#[derive(Clone, Copy, PartialEq, Eq, Structural, Debug)]
pub enum PrivilegeState {
    /// At start: effective identity is whatever the kernel gave us.
    Initial,
    /// Effective identity is root; only the namespace switch happens here.
    Escalated,
    /// Effective and real identity are both the caller's, permanently.
    Dropped,
}

/// Where in the ordered sequence one invocation stands. Each `Await` phase
/// names the system call whose result the machine consumes next.
#[derive(Clone, Copy, PartialEq, Eq, Structural, Debug)]
pub enum Phase {
    /// Awaiting the result of setting the effective identity to root.
    AwaitEscalateEffective,
    /// Awaiting the result of setting the real identity to root.
    AwaitEscalateReal,
    /// Awaiting the result of opening the namespace's backing file.
    AwaitOpen,
    /// Awaiting the result of the network-namespace switch.
    AwaitSwitch,
    /// Awaiting the result of setting the real identity to the caller's.
    AwaitRealDrop,
    /// Awaiting the result of setting the effective identity to the caller's.
    AwaitEffectiveDrop,
    /// Every privileged step succeeded; the caller's command may run.
    ReadyToLaunch,
    /// A step failed; nothing further may happen in this invocation.
    Aborted,
}

/// What the unverified binary must do next on behalf of the machine.
#[derive(Clone, Copy, PartialEq, Eq, Structural, Debug)]
pub enum RunAction {
    /// Set the effective identity to root.
    SetEffectiveRootId,
    /// Set the real identity to root.
    SetRealRootId,
    /// Open the namespace's backing file read-only, close-on-exec.
    OpenNamespaceFile,
    /// Switch the process's network namespace to the opened descriptor.
    SwitchNamespace,
    /// Set the real identity to the captured caller identity.
    SetRealCallerId,
    /// Set the effective identity to the captured caller identity.
    SetEffectiveCallerId,
    /// Launch the caller's command and relay its termination status.
    LaunchCommand,
    /// Print the failure's diagnostic and exit non-zero.
    AbortProcess,
}

/// One invocation of the core path: the validated namespace name, the
/// caller identity captured at process start, and how far the ordered
/// sequence has come.
pub struct RunSession {
    /// The next pending step.
    pub phase: Phase,
    /// The process-wide privilege mode the completed steps have reached.
    pub privilege: PrivilegeState,
    /// The invoking (real) user identity captured at process start.
    pub uid: u32,
    /// The namespace name; valid as an identifier from construction on.
    pub namespace: String,
}

/// The directory under which namespace backing files live, keyed by name.
pub open spec fn spec_namespace_path(ns: Seq<char>) -> Seq<char> {
    "/run/netns/"@ + ns
}

/// The phase reached when the pending step's system call succeeds.
pub open spec fn spec_success_phase(phase: Phase) -> Phase {
    match phase {
        Phase::AwaitEscalateEffective => Phase::AwaitEscalateReal,
        Phase::AwaitEscalateReal => Phase::AwaitOpen,
        Phase::AwaitOpen => Phase::AwaitSwitch,
        Phase::AwaitSwitch => Phase::AwaitRealDrop,
        Phase::AwaitRealDrop => Phase::AwaitEffectiveDrop,
        Phase::AwaitEffectiveDrop => Phase::ReadyToLaunch,
        Phase::ReadyToLaunch => Phase::ReadyToLaunch,
        Phase::Aborted => Phase::Aborted,
    }
}

/// The privilege mode reached when the pending step's system call
/// succeeds: root once the effective identity is root, the caller's once
/// both identities are the caller's again.
pub open spec fn spec_success_privilege(phase: Phase, p: PrivilegeState) -> PrivilegeState {
    match phase {
        Phase::AwaitEscalateEffective => PrivilegeState::Escalated,
        Phase::AwaitEffectiveDrop => PrivilegeState::Dropped,
        _ => p,
    }
}

/// The whole transition relation of the machine: a negative result aborts
/// the invocation and leaves privilege where it stood; a non-negative one
/// moves to the next step; the two terminal phases never move again.
pub open spec fn spec_advance(s: RunSession, ret: i32) -> RunSession {
    if s.phase is ReadyToLaunch || s.phase is Aborted {
        s
    } else if ret < 0 {
        RunSession { phase: Phase::Aborted, ..s }
    } else {
        RunSession {
            phase: spec_success_phase(s.phase),
            privilege: spec_success_privilege(s.phase, s.privilege),
            ..s
        }
    }
}

/// The action owed for each phase.
pub open spec fn spec_next_action(phase: Phase) -> RunAction {
    match phase {
        Phase::AwaitEscalateEffective => RunAction::SetEffectiveRootId,
        Phase::AwaitEscalateReal => RunAction::SetRealRootId,
        Phase::AwaitOpen => RunAction::OpenNamespaceFile,
        Phase::AwaitSwitch => RunAction::SwitchNamespace,
        Phase::AwaitRealDrop => RunAction::SetRealCallerId,
        Phase::AwaitEffectiveDrop => RunAction::SetEffectiveCallerId,
        Phase::ReadyToLaunch => RunAction::LaunchCommand,
        Phase::Aborted => RunAction::AbortProcess,
    }
}

/// The error owed when the step pending at `phase` fails, for a session
/// whose namespace name reads `ns`.
pub open spec fn fault_matches(e: ToolError, phase: Phase, ns: Seq<char>) -> bool {
    match phase {
        Phase::AwaitEscalateEffective | Phase::AwaitEscalateReal => e is PrivilegeRaise,
        Phase::AwaitOpen => (e matches ToolError::NamespaceOpen { namespace }
            && namespace@ == ns),
        Phase::AwaitSwitch => e is NamespaceSwitch,
        Phase::AwaitRealDrop | Phase::AwaitEffectiveDrop => e is PrivilegeDrop,
        Phase::ReadyToLaunch | Phase::Aborted => false,
    }
}

impl RunSession {
    /// Well-formedness: the namespace name passed validation, and the
    /// privilege mode is exactly what the completed steps imply. In
    /// particular the command is launchable only with privilege dropped,
    /// and an aborted invocation never reached the drop.
    pub open spec fn wf(self) -> bool {
        &&& valid_identifier(self.namespace@)
        &&& match self.phase {
            Phase::AwaitEscalateEffective => self.privilege is Initial,
            Phase::AwaitEscalateReal
            | Phase::AwaitOpen
            | Phase::AwaitSwitch
            | Phase::AwaitRealDrop
            | Phase::AwaitEffectiveDrop => self.privilege is Escalated,
            Phase::ReadyToLaunch => self.privilege is Dropped,
            Phase::Aborted => !(self.privilege is Dropped),
        }
    }

    /// Starts one invocation of the core path: validates the namespace
    /// name before any privilege change, captures the caller identity, and
    /// owes the escalation as the first step. Rejects exactly the names
    /// that the identifier grammar rejects, with the validation error
    /// naming the offending input.
    pub fn begin(namespace: &str, uid: u32) -> (r: Result<RunSession, ToolError>)
        ensures
            r is Ok <==> valid_identifier(namespace@),
            r is Ok ==> {
                let s = r->Ok_0;
                &&& s.wf()
                &&& s.phase is AwaitEscalateEffective
                &&& s.privilege is Initial
                &&& s.uid == uid
                &&& s.namespace@ == namespace@
            },
            r is Err ==> (r->Err_0 matches ToolError::Validation { input, class }
                && input@ == namespace@ && class == TokenClass::Identifier),
    {
        match validate_token(namespace, TokenClass::Identifier) {
            Err(e) => Err(e),
            Ok(()) => Ok(
                RunSession {
                    phase: Phase::AwaitEscalateEffective,
                    privilege: PrivilegeState::Initial,
                    uid,
                    namespace: namespace.to_owned(),
                },
            ),
        }
    }

    /// The canonical path of the namespace's backing file.
    pub fn namespace_path(&self) -> (r: String)
        ensures
            r@ == spec_namespace_path(self.namespace@),
    {
        let mut p = "/run/netns/".to_owned();
        p.append(self.namespace.as_str());
        p
    }

    /// The action the binary owes next.
    pub fn next_action(&self) -> (a: RunAction)
        ensures
            a == spec_next_action(self.phase),
    {
        match self.phase {
            Phase::AwaitEscalateEffective => RunAction::SetEffectiveRootId,
            Phase::AwaitEscalateReal => RunAction::SetRealRootId,
            Phase::AwaitOpen => RunAction::OpenNamespaceFile,
            Phase::AwaitSwitch => RunAction::SwitchNamespace,
            Phase::AwaitRealDrop => RunAction::SetRealCallerId,
            Phase::AwaitEffectiveDrop => RunAction::SetEffectiveCallerId,
            Phase::ReadyToLaunch => RunAction::LaunchCommand,
            Phase::Aborted => RunAction::AbortProcess,
        }
    }

    /// Consumes the result of the pending step's system call, success
    /// meaning a non-negative return. On failure the invocation moves to
    /// `Aborted` — from which no step ever leads out — and the distinct
    /// error owed for the failed step is handed back for the diagnostic.
    pub fn advance(&mut self, ret: i32) -> (fault: Option<ToolError>)
        requires
            !(old(self).phase is ReadyToLaunch),
            !(old(self).phase is Aborted),
        ensures
            *final(self) == spec_advance(*old(self), ret),
            old(self).wf() ==> final(self).wf(),
            fault is Some <==> ret < 0,
            ret < 0 ==> fault_matches(fault->Some_0, old(self).phase, old(self).namespace@),
    {
        if ret < 0 {
            let e = match self.phase {
                Phase::AwaitEscalateEffective | Phase::AwaitEscalateReal =>
                    ToolError::PrivilegeRaise,
                Phase::AwaitOpen => ToolError::NamespaceOpen {
                    namespace: self.namespace.clone(),
                },
                Phase::AwaitSwitch => ToolError::NamespaceSwitch,
                Phase::AwaitRealDrop | Phase::AwaitEffectiveDrop => ToolError::PrivilegeDrop,
                Phase::ReadyToLaunch | Phase::Aborted => {
                    proof {
                        assert(false);
                    }
                    ToolError::PrivilegeDrop
                },
            };
            self.phase = Phase::Aborted;
            Some(e)
        } else {
            match self.phase {
                Phase::AwaitEscalateEffective => {
                    self.phase = Phase::AwaitEscalateReal;
                    self.privilege = PrivilegeState::Escalated;
                },
                Phase::AwaitEscalateReal => {
                    self.phase = Phase::AwaitOpen;
                },
                Phase::AwaitOpen => {
                    self.phase = Phase::AwaitSwitch;
                },
                Phase::AwaitSwitch => {
                    self.phase = Phase::AwaitRealDrop;
                },
                Phase::AwaitRealDrop => {
                    self.phase = Phase::AwaitEffectiveDrop;
                },
                Phase::AwaitEffectiveDrop => {
                    self.phase = Phase::ReadyToLaunch;
                    self.privilege = PrivilegeState::Dropped;
                },
                Phase::ReadyToLaunch | Phase::Aborted => {
                    proof {
                        assert(false);
                    }
                },
            }
            None
        }
    }
}

/// How far along the one-way privilege order a mode stands.
pub open spec fn privilege_rank(p: PrivilegeState) -> int {
    match p {
        PrivilegeState::Initial => 0,
        PrivilegeState::Escalated => 1,
        PrivilegeState::Dropped => 2,
    }
}

/// The session reached after consuming a whole sequence of step results.
pub open spec fn advance_seq(s: RunSession, results: Seq<i32>) -> RunSession
    decreases results.len(),
{
    if results.len() == 0 {
        s
    } else {
        advance_seq(spec_advance(s, results[0]), results.drop_first())
    }
}

/// Law: privilege transitions are monotonic — no single step, whatever its
/// result, moves the privilege mode of a well-formed session backwards
/// along `Initial → Escalated → Dropped`.
pub proof fn lemma_privilege_monotonic(s: RunSession, ret: i32)
    requires
        s.wf(),
    ensures
        privilege_rank(spec_advance(s, ret).privilege) >= privilege_rank(s.privilege),
{
}

/// Law: escalation never occurs after the drop. Once privilege is
/// `Dropped`, a well-formed session never owes an escalation action again,
/// and no step result whatever moves privilege away from `Dropped`.
pub proof fn lemma_no_escalation_after_drop(s: RunSession, ret: i32)
    requires
        s.wf(),
        s.privilege is Dropped,
    ensures
        spec_advance(s, ret).privilege is Dropped,
        !(spec_next_action(s.phase) is SetEffectiveRootId),
        !(spec_next_action(s.phase) is SetRealRootId),
{
}

/// Law: the caller's command is only ever launched with privilege dropped —
/// a well-formed session owes `LaunchCommand` only in a phase whose
/// privilege mode is `Dropped`, never while escalated.
pub proof fn lemma_launch_only_after_drop(s: RunSession)
    requires
        s.wf(),
    ensures
        spec_next_action(s.phase) is LaunchCommand ==> s.privilege is Dropped,
{
}

/// Law: one step preserves well-formedness.
pub proof fn lemma_advance_preserves_wf(s: RunSession, ret: i32)
    requires
        s.wf(),
    ensures
        spec_advance(s, ret).wf(),
{
}

/// Law: any sequence of step results preserves well-formedness, so every
/// session reachable from `begin` keeps privilege tied to its phase.
pub proof fn lemma_advance_seq_preserves_wf(s: RunSession, results: Seq<i32>)
    requires
        s.wf(),
    ensures
        advance_seq(s, results).wf(),
    decreases results.len(),
{
    if results.len() > 0 {
        lemma_advance_seq_preserves_wf(spec_advance(s, results[0]), results.drop_first());
    }
}

/// How many system calls still have to succeed before the caller's command
/// may run.
pub open spec fn steps_remaining(phase: Phase) -> int {
    match phase {
        Phase::AwaitEscalateEffective => 6,
        Phase::AwaitEscalateReal => 5,
        Phase::AwaitOpen => 4,
        Phase::AwaitSwitch => 3,
        Phase::AwaitRealDrop => 2,
        Phase::AwaitEffectiveDrop => 1,
        Phase::ReadyToLaunch => 0,
        Phase::Aborted => 0,
    }
}

/// Law: the launch is only reachable through unbroken success — if a
/// session ever reaches `ReadyToLaunch`, then every one of its pending
/// steps, escalation through both halves of the drop, reported success.
pub proof fn lemma_launch_needs_every_success(s: RunSession, results: Seq<i32>)
    requires
        !(s.phase is Aborted),
    ensures
        advance_seq(s, results).phase is ReadyToLaunch ==> steps_remaining(s.phase)
            <= results.len(),
        advance_seq(s, results).phase is ReadyToLaunch ==> (forall|i: int|
            0 <= i < steps_remaining(s.phase) ==> results[i] >= 0),
    decreases results.len(),
{
    if results.len() > 0 && !(s.phase is ReadyToLaunch) {
        let stepped = spec_advance(s, results[0]);
        if results[0] < 0 {
            lemma_abort_is_final(stepped, results.drop_first());
        } else {
            let rest = results.drop_first();
            lemma_launch_needs_every_success(stepped, rest);
            assert(advance_seq(s, results) == advance_seq(stepped, rest));
            if advance_seq(s, results).phase is ReadyToLaunch {
                assert(steps_remaining(stepped.phase) == steps_remaining(s.phase) - 1);
                assert forall|i: int| 0 <= i < steps_remaining(s.phase) implies results[i]
                    >= 0 by {
                    if i > 0 {
                        assert(rest[i - 1] >= 0);
                        assert(rest[i - 1] == results[i]);
                    }
                }
            }
        }
    } else if results.len() > 0 {
        lemma_launch_needs_every_success(s, results.drop_first());
    }
}

/// Law: `Aborted` is absorbing — an aborted invocation stays aborted under
/// every further sequence of step results.
pub proof fn lemma_abort_is_final(s: RunSession, results: Seq<i32>)
    requires
        s.phase is Aborted,
    ensures
        advance_seq(s, results).phase is Aborted,
    decreases results.len(),
{
    if results.len() > 0 {
        lemma_abort_is_final(spec_advance(s, results[0]), results.drop_first());
    }
}

/// Law: a failed step blocks everything after it. If the pending step's
/// system call fails — the namespace cannot be opened, the switch is
/// refused, an identity change fails — then no sequence of later results
/// ever reaches the launch: the only action ever owed again is to abort,
/// so neither an identity drop nor the caller's command is attempted.
pub proof fn lemma_failed_step_never_launches(s: RunSession, ret: i32, results: Seq<i32>)
    requires
        !(s.phase is ReadyToLaunch),
        !(s.phase is Aborted),
        ret < 0,
    ensures
        advance_seq(spec_advance(s, ret), results).phase is Aborted,
        spec_next_action(advance_seq(spec_advance(s, ret), results).phase)
            == RunAction::AbortProcess,
{
    lemma_abort_is_final(spec_advance(s, ret), results);
}

} // verus!

