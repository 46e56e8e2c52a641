//! Maintenance of the local caches: one destructive reset at a time.
use crate::governance::staking::next_generation;
use crate::text::{decimal, decimal_u64};
use vstd::prelude::*;
use vstd::string::*;

verus! {

/// The reset that is under way.
#[derive(Clone, Copy, Debug, PartialEq, Eq, Structural)]
pub enum WalletMaintenanceReset {
    Idle,
    Public,
    Poi,
    Merkle,
}

/// How far a reset came.
#[derive(Clone, Copy, Debug, PartialEq, Eq, Structural)]
pub enum PublicSyncResetCompletion {
    CleanupFailed,
    ResetAttempted,
}

/// Whether the wallet may be synced again: it was stopped for the reset, and the stop went through.
pub fn public_sync_reset_restart_is_safe(
    resync_requested: bool,
    completion: PublicSyncResetCompletion,
) -> (safe: bool)
    ensures
        completion is CleanupFailed ==> !safe,
        !resync_requested ==> !safe,
        resync_requested && completion is ResetAttempted ==> safe,
        safe == (resync_requested && completion == PublicSyncResetCompletion::ResetAttempted),
{
    resync_requested && match completion {
        PublicSyncResetCompletion::ResetAttempted => true,
        PublicSyncResetCompletion::CleanupFailed => false,
    }
}

/// A call that may change which reset is under way, or what is shown of it.
pub enum MaintenanceCall {
    Acquire { reset: WalletMaintenanceReset, status: String },
    Complete { generation: u64, status: String },
    ClearStatus,
    IdleStatus { status: String },
}

/// Which reset is under way, which one it is of all so far, and what is shown of it.
pub struct WalletMaintenanceStateMachine {
    pub reset: WalletMaintenanceReset,
    pub generation: u64,
    pub status: Option<String>,
}

impl WalletMaintenanceStateMachine {
    /// The state after a reset was asked for, and its generation where it began.
    pub open spec fn after_acquire(self, reset: WalletMaintenanceReset, status: String) -> (
        WalletMaintenanceStateMachine,
        Option<u64>,
    ) {
        if self.reset == WalletMaintenanceReset::Idle && reset != WalletMaintenanceReset::Idle {
            (
                WalletMaintenanceStateMachine {
                    reset,
                    generation: next_generation(self.generation),
                    status: Some(status),
                },
                Some(next_generation(self.generation)),
            )
        } else {
            (self, None)
        }
    }

    /// The state after a reset was reported as done, and whether it was the one under way.
    pub open spec fn after_complete(self, generation: u64, status: String) -> (
        WalletMaintenanceStateMachine,
        bool,
    ) {
        if self.reset != WalletMaintenanceReset::Idle && self.generation == generation {
            (
                WalletMaintenanceStateMachine {
                    reset: WalletMaintenanceReset::Idle,
                    generation,
                    status: Some(status),
                },
                true,
            )
        } else {
            (self, false)
        }
    }

    /// The state after what is shown was taken away, and whether something was.
    pub open spec fn after_clear_status(self) -> (WalletMaintenanceStateMachine, bool) {
        if self.reset == WalletMaintenanceReset::Idle && self.status is Some {
            (WalletMaintenanceStateMachine { status: None, ..self }, true)
        } else {
            (self, false)
        }
    }

    /// The state after a text was to be shown, and whether it is.
    pub open spec fn after_idle_status(self, status: String) -> (
        WalletMaintenanceStateMachine,
        bool,
    ) {
        if self.reset == WalletMaintenanceReset::Idle {
            (WalletMaintenanceStateMachine { status: Some(status), ..self }, true)
        } else {
            (self, false)
        }
    }

    /// The state after a call.
    pub open spec fn after_call(self, call: MaintenanceCall) -> WalletMaintenanceStateMachine {
        match call {
            MaintenanceCall::Acquire { reset, status } => self.after_acquire(reset, status).0,
            MaintenanceCall::Complete { generation, status } => self.after_complete(
                generation,
                status,
            ).0,
            MaintenanceCall::ClearStatus => self.after_clear_status().0,
            MaintenanceCall::IdleStatus { status } => self.after_idle_status(status).0,
        }
    }

    /// The state after several calls.
    pub open spec fn after_calls(
        self,
        calls: Seq<MaintenanceCall>,
    ) -> WalletMaintenanceStateMachine
        decreases calls.len(),
    {
        if calls.len() == 0 {
            self
        } else {
            self.after_calls(calls.drop_last()).after_call(calls.last())
        }
    }

    /// A reset that is under way has something to show.
    pub open spec fn valid(self) -> bool {
        self.reset != WalletMaintenanceReset::Idle ==> self.status is Some
    }

    /// No reset.
    pub fn default() -> (machine: WalletMaintenanceStateMachine)
        ensures
            machine == (WalletMaintenanceStateMachine {
                reset: WalletMaintenanceReset::Idle,
                generation: 0,
                status: None,
            }),
            machine.valid(),
    {
        WalletMaintenanceStateMachine {
            reset: WalletMaintenanceReset::Idle,
            generation: 0,
            status: None,
        }
    }

    /// The reset that is under way.
    pub fn reset(&self) -> (reset: WalletMaintenanceReset)
        ensures
            reset == self.reset,
    {
        self.reset
    }

    /// What is shown.
    pub fn status(&self) -> (status: Option<String>)
        ensures
            status == self.status,
    {
        match &self.status {
            Some(text) => Some(text.clone()),
            None => None,
        }
    }

    /// Begins a reset, where none is under way. Returns the generation that completes it.
    pub fn try_acquire(&mut self, reset: WalletMaintenanceReset, status: String) -> (acquired:
        Option<u64>)
        ensures
            (*final(self), acquired) == old(self).after_acquire(reset, status),
            acquired is Some <==> old(self).reset is Idle && !(reset is Idle),
            acquired is None ==> *final(self) == *old(self),
            acquired matches Some(generation) ==> generation == next_generation(
                old(self).generation,
            ) && final(self).generation == generation && final(self).reset == reset
                && final(self).status == Some(status),
    {
        if self.reset != WalletMaintenanceReset::Idle || reset == WalletMaintenanceReset::Idle {
            return None;
        }
        self.generation = self.generation.wrapping_add(1);
        self.reset = reset;
        self.status = Some(status);
        Some(self.generation)
    }

    /// Ends the reset of this generation, where it is the one under way.
    pub fn complete(&mut self, generation: u64, status: String) -> (completed: bool)
        ensures
            (*final(self), completed) == old(self).after_complete(generation, status),
            completed <==> !(old(self).reset is Idle) && old(self).generation == generation,
            !completed ==> *final(self) == *old(self),
            completed ==> final(self).reset is Idle && final(self).generation == old(self).generation
                && final(self).status == Some(status),
    {
        if self.reset == WalletMaintenanceReset::Idle || self.generation != generation {
            return false;
        }
        self.reset = WalletMaintenanceReset::Idle;
        self.status = Some(status);
        true
    }

    /// Takes away what is shown, unless it is about a reset under way.
    pub fn clear_status(&mut self) -> (changed: bool)
        ensures
            (*final(self), changed) == old(self).after_clear_status(),
            changed <==> old(self).reset is Idle && old(self).status is Some,
            !changed ==> *final(self) == *old(self),
            final(self).reset == old(self).reset,
            final(self).generation == old(self).generation,
            old(self).reset is Idle ==> final(self).status is None,
    {
        if self.reset != WalletMaintenanceReset::Idle {
            return false;
        }
        self.status.take().is_some()
    }

    /// Shows a text, unless a reset is under way.
    pub fn set_idle_status(&mut self, status: String) -> (changed: bool)
        ensures
            (*final(self), changed) == old(self).after_idle_status(status),
            changed <==> old(self).reset is Idle,
            !changed ==> *final(self) == *old(self),
            final(self).reset == old(self).reset,
            final(self).generation == old(self).generation,
            changed ==> final(self).status == Some(status),
    {
        if self.reset != WalletMaintenanceReset::Idle {
            return false;
        }
        self.status = Some(status);
        true
    }
}

/// A reset that began keeps others from beginning until it ends, and ends once, with its own
/// generation only.
pub proof fn one_reset_at_a_time(
    machine: WalletMaintenanceStateMachine,
    first: WalletMaintenanceReset,
    second: WalletMaintenanceReset,
    other: u64,
    begun: String,
    wanted: String,
    done: String,
    again: String,
)
    requires
        machine.after_acquire(first, begun).1 is Some,
        Some(other) != machine.after_acquire(first, begun).1,
    ensures
        ({
            let (busy, generation) = machine.after_acquire(first, begun);
            let (idle, completed) = busy.after_complete(generation.unwrap(), done);
            &&& busy.reset == first
            &&& busy.after_acquire(second, wanted) == (busy, None::<u64>)
            &&& busy.after_complete(other, again) == (busy, false)
            &&& completed
            &&& idle.reset == WalletMaintenanceReset::Idle
            &&& idle.after_complete(generation.unwrap(), again) == (idle, false)
        }),
{
}

/// A reset that began is held through every sequence of calls that does not complete it under its
/// own generation, and what is shown of it stays. The completion under its generation then ends it.
pub proof fn a_reset_is_held_until_it_completes(
    machine: WalletMaintenanceStateMachine,
    reset: WalletMaintenanceReset,
    begun: String,
    calls: Seq<MaintenanceCall>,
    done: String,
)
    requires
        machine.after_acquire(reset, begun).1 is Some,
        forall|i: int|
            0 <= i < calls.len() ==> !(#[trigger] calls[i] matches MaintenanceCall::Complete {
                generation,
                ..
            } && Some(generation) == machine.after_acquire(reset, begun).1),
    ensures
        ({
            let (busy, generation) = machine.after_acquire(reset, begun);
            &&& busy.reset == reset
            &&& busy.status == Some(begun)
            &&& busy.after_calls(calls) == busy
            &&& busy.after_calls(calls).after_complete(generation.unwrap(), done) == (
                WalletMaintenanceStateMachine {
                    reset: WalletMaintenanceReset::Idle,
                    status: Some(done),
                    ..busy
                },
                true,
            )
        }),
    decreases calls.len(),
{
    if calls.len() > 0 {
        let earlier = calls.drop_last();
        assert forall|i: int| 0 <= i < earlier.len() implies !(#[trigger] earlier[i] matches
            MaintenanceCall::Complete { generation, .. } && Some(generation)
            == machine.after_acquire(reset, begun).1) by {
            assert(earlier[i] == calls[i]);
        }
        a_reset_is_held_until_it_completes(machine, reset, begun, earlier, done);
        assert(calls.last() == calls[calls.len() - 1]);
    }
}

/// Whatever calls are made, a reset that is under way always has something to show.
pub proof fn a_running_reset_has_a_status(
    machine: WalletMaintenanceStateMachine,
    calls: Seq<MaintenanceCall>,
)
    requires
        machine.valid(),
    ensures
        machine.after_calls(calls).valid(),
    decreases calls.len(),
{
    if calls.len() > 0 {
        a_running_reset_has_a_status(machine, calls.drop_last());
    }
}

/// The resets, and what keeps one from being begun.
pub struct WalletMaintenanceController {
    pub state: WalletMaintenanceStateMachine,
    /// Whether a wallet is open.
    pub active_root: bool,
    /// The cleanup of the wallet that was open before, and whether it is done.
    pub root_replacement_cleanup: Option<bool>,
}

/// What is shown when a reset has to wait.
pub open spec fn wait_text(reset: WalletMaintenanceReset) -> Seq<char> {
    match reset {
        WalletMaintenanceReset::Poi => "Wait for wallet sync cleanup before resetting PPOI data"@,
        _ => "Wait for wallet sync cleanup before resetting caches"@,
    }
}

/// What is shown while a reset is under way.
pub open spec fn begin_text(reset: WalletMaintenanceReset) -> Seq<char> {
    match reset {
        WalletMaintenanceReset::Idle => ""@,
        WalletMaintenanceReset::Public => "Resetting public sync caches..."@,
        WalletMaintenanceReset::Poi => "Resetting PPOI data..."@,
        WalletMaintenanceReset::Merkle => "Resetting local Merkle forest cache..."@,
    }
}

impl WalletMaintenanceController {
    /// No reset, and no wallet open.
    pub fn new() -> (controller: WalletMaintenanceController)
        ensures
            controller.state.reset == WalletMaintenanceReset::Idle,
            controller.state.generation == 0,
            controller.state.status is None,
            !controller.active_root,
            controller.root_replacement_cleanup is None,
    {
        WalletMaintenanceController {
            state: WalletMaintenanceStateMachine::default(),
            active_root: false,
            root_replacement_cleanup: None,
        }
    }

    /// Whether neither a reset nor a cleanup is under way.
    pub fn is_idle(&self) -> (idle: bool)
        ensures
            idle == (self.state.reset == WalletMaintenanceReset::Idle
                && self.root_replacement_cleanup is None),
    {
        self.state.reset() == WalletMaintenanceReset::Idle && self.root_replacement_cleanup.is_none()
    }

    /// Takes note of the cleanup of the wallet that was open before.
    pub fn set_root_replacement_cleanup(&mut self, cleanup: Option<bool>)
        ensures
            *final(self) == (WalletMaintenanceController {
                root_replacement_cleanup: cleanup,
                ..*old(self)
            }),
    {
        self.root_replacement_cleanup = cleanup;
    }

    /// Forgets the cleanup once it is done.
    pub fn clear_finished_root_replacement_cleanup(&mut self)
        ensures
            *final(self) == (WalletMaintenanceController {
                root_replacement_cleanup: if old(self).root_replacement_cleanup == Some(true) {
                    None
                } else {
                    old(self).root_replacement_cleanup
                },
                ..*old(self)
            }),
    {
        if let Some(true) = self.root_replacement_cleanup {
            self.root_replacement_cleanup = None;
        }
    }

    /// Begins a reset. It has to wait while a cleanup is under way, or while the open wallet does
    /// not allow it. Returns the generation that completes it.
    pub fn begin_reset(&mut self, reset: WalletMaintenanceReset, root_allows: bool) -> (generation:
        Option<u64>)
        requires
            reset != WalletMaintenanceReset::Idle,
        ensures
            final(self).active_root == old(self).active_root,
            final(self).root_replacement_cleanup == old(self).root_replacement_cleanup,
            if old(self).root_replacement_cleanup is Some || (old(self).active_root
                && !root_allows) {
                &&& generation is None
                &&& final(self).state.reset == old(self).state.reset
                &&& final(self).state.generation == old(self).state.generation
                &&& if old(self).state.reset == WalletMaintenanceReset::Idle {
                    final(self).state.status matches Some(text) && text@ == wait_text(reset)
                } else {
                    final(self).state.status == old(self).state.status
                }
            } else if old(self).state.reset == WalletMaintenanceReset::Idle {
                &&& generation == Some(next_generation(old(self).state.generation))
                &&& final(self).state.reset == reset
                &&& final(self).state.generation == next_generation(old(self).state.generation)
                &&& final(self).state.status matches Some(text) && text@ == begin_text(reset)
            } else {
                generation is None && final(self).state == old(self).state
            },
            old(self).state.reset != WalletMaintenanceReset::Idle ==> generation is None
                && final(self).state == old(self).state,
            old(self).state.valid() ==> final(self).state.valid(),
    {
        if self.root_replacement_cleanup.is_some() || (self.active_root && !root_allows) {
            let text = match reset {
                WalletMaintenanceReset::Poi => {
                    "Wait for wallet sync cleanup before resetting PPOI data"
                },
                _ => "Wait for wallet sync cleanup before resetting caches",
            };
            self.state.set_idle_status(text.to_owned());
            return None;
        }
        let text = match reset {
            WalletMaintenanceReset::Public => "Resetting public sync caches...",
            WalletMaintenanceReset::Poi => "Resetting PPOI data...",
            WalletMaintenanceReset::Merkle => "Resetting local Merkle forest cache...",
            WalletMaintenanceReset::Idle => "",
        };
        self.state.try_acquire(reset, text.to_owned())
    }

    /// Takes the end of a reset, where it is the one under way. Gives whether the open wallet is
    /// told.
    pub fn finish_reset(&mut self, generation: u64, status: String) -> (tells_root: bool)
        ensures
            ({
                let (state, completed) = old(self).state.after_complete(generation, status);
                &&& tells_root == (completed && old(self).active_root)
                &&& *final(self) == (WalletMaintenanceController { state, ..*old(self) })
            }),
    {
        let completed = self.state.complete(generation, status);
        completed && self.active_root
    }
}

/// What became of one chain's caches.
pub struct ChainCacheReset {
    pub chain_id: u64,
    /// The address of the chain's contract, as text.
    pub contract: String,
    pub error: Option<String>,
}

/// What a reset of the public caches reports.
pub struct PublicCacheResetReport {
    pub persisted_error: Option<String>,
    pub chains: Vec<ChainCacheReset>,
    pub total_removed_entries: u64,
}

/// The number of chains whose reset failed.
pub open spec fn failed_count(chains: Seq<ChainCacheReset>) -> nat
    decreases chains.len(),
{
    if chains.len() == 0 {
        0
    } else {
        failed_count(chains.drop_last()) + if chains.last().error is Some {
            1nat
        } else {
            0
        }
    }
}

/// Whether the reset of this chain is the first that failed.
pub open spec fn first_failed(chains: Seq<ChainCacheReset>, at: int) -> bool {
    &&& 0 <= at < chains.len()
    &&& chains[at].error is Some
    &&& forall|i: int| 0 <= i < at ==> (#[trigger] chains[i]).error is None
}

/// The text of a chain's failure.
pub open spec fn failure_text(reset: ChainCacheReset) -> Seq<char> {
    "chain "@ + decimal(reset.chain_id as nat) + " contract "@ + reset.contract@ + ": "@
        + reset.error.unwrap()@
}

/// What a reset of the public caches came to: the number of removed entries, or the first thing
/// that went wrong.
pub fn public_cache_reset_result(report: Result<PublicCacheResetReport, String>) -> (result: Result<
    u64,
    String,
>)
    ensures
        match report {
            Err(error) => result matches Err(text) && text@
                == "public cache reset admission failed: "@ + error@,
            Ok(report) => match report.persisted_error {
                Some(error) => result matches Err(text) && text@
                    == "persisted public cache reset failed: "@ + error@,
                None => if failed_count(report.chains@) > 0 {
                    result matches Err(text) && exists|at: int| #[trigger]
                        first_failed(report.chains@, at) && text@ == decimal(
                            failed_count(report.chains@),
                        ) + " of "@ + decimal(report.chains@.len())
                            + " chain resets failed; first failure: "@ + failure_text(
                            report.chains@[at],
                        )
                } else {
                    result == Ok::<u64, String>(report.total_removed_entries)
                },
            },
        },
{
    let report = match report {
        Ok(report) => report,
        Err(error) => {
            let mut text = "public cache reset admission failed: ".to_owned();
            text.append(&error);
            return Err(text);
        },
    };
    if let Some(error) = report.persisted_error {
        let mut text = "persisted public cache reset failed: ".to_owned();
        text.append(&error);
        return Err(text);
    }
    let chains = report.chains;
    let mut failed: usize = 0;
    let mut first: Option<usize> = None;
    let mut i: usize = 0;
    while i < chains.len()
        invariant
            i <= chains@.len(),
            failed <= i,
            failed == failed_count(chains@.take(i as int)),
            match first {
                Some(at) => at < i && first_failed(chains@, at as int) && failed > 0,
                None => failed == 0 && forall|j: int|
                    0 <= j < i ==> (#[trigger] chains@[j]).error is None,
            },
        decreases chains@.len() - i,
    {
        proof {
            assert(chains@.take(i + 1).drop_last() =~= chains@.take(i as int));
        }
        if chains[i].error.is_some() {
            failed += 1;
            if first.is_none() {
                first = Some(i);
            }
        }
        i += 1;
    }
    assert(chains@.take(i as int) =~= chains@);
    match first {
        Some(at) => {
            let mut text = decimal_u64(failed as u64);
            text.append(" of ");
            text.append(&decimal_u64(chains.len() as u64));
            text.append(" chain resets failed; first failure: ");
            let reset = &chains[at];
            let ghost head = text@;
            text.append("chain ");
            text.append(&decimal_u64(reset.chain_id));
            text.append(" contract ");
            text.append(&reset.contract);
            text.append(": ");
            if let Some(error) = &reset.error {
                text.append(error);
            }
            proof {
                assert(text@ =~= head + failure_text(*reset));
                assert(first_failed(chains@, at as int));
            }
            Err(text)
        },
        None => Ok(report.total_removed_entries),
    }
}

/// What the task of a reset came to: what it counted, or why it failed, with how far it came; or
/// the error of the task itself.
pub enum ResetOutcome<T> {
    Finished(Result<T, String>, PublicSyncResetCompletion),
    TaskFailed(String),
}

/// What is shown once the public caches were reset, and whether the wallet may be synced again.
pub fn public_reset_message(outcome: ResetOutcome<u64>, resync_requested: bool) -> (shown: (
    String,
    bool,
))
    ensures
        match outcome {
            ResetOutcome::Finished(result, completion) => {
                &&& shown.1 == (resync_requested && completion
                    == PublicSyncResetCompletion::ResetAttempted)
                &&& shown.0@ == match result {
                    Ok(removed) => if resync_requested {
                        "Public sync caches reset; cleared "@ + decimal(removed as nat)
                            + " cache records and requested resync"@
                    } else {
                        "Persisted public sync caches reset; cleared "@ + decimal(removed as nat)
                            + " cache records"@
                    },
                    Err(error) => "Failed to reset public sync caches: "@ + error@,
                }
            },
            ResetOutcome::TaskFailed(error) => !shown.1 && shown.0@
                == "Public sync cache reset task failed: "@ + error@,
        },
{
    match outcome {
        ResetOutcome::Finished(result, completion) => {
            let safe = public_sync_reset_restart_is_safe(resync_requested, completion);
            let text = match result {
                Ok(removed) => {
                    let count = decimal_u64(removed);
                    if resync_requested {
                        crate::text::concat3(
                            "Public sync caches reset; cleared ",
                            &count,
                            " cache records and requested resync",
                        )
                    } else {
                        crate::text::concat3(
                            "Persisted public sync caches reset; cleared ",
                            &count,
                            " cache records",
                        )
                    }
                },
                Err(error) => crate::text::concat2("Failed to reset public sync caches: ", &error),
            };
            (text, safe)
        },
        ResetOutcome::TaskFailed(error) => (
            crate::text::concat2("Public sync cache reset task failed: ", &error),
            false,
        ),
    }
}

/// What a reset of the PPOI data removed.
#[derive(Clone, Copy, Debug, PartialEq, Eq, Structural)]
pub struct PoiResetReport {
    pub data_records_removed: u64,
    pub chunk_records_removed: u64,
}

/// What is shown once the PPOI data was reset, and whether the wallet may be synced again.
pub fn poi_reset_message(outcome: ResetOutcome<PoiResetReport>, resync_requested: bool) -> (shown: (
    String,
    bool,
))
    ensures
        match outcome {
            ResetOutcome::Finished(result, completion) => {
                &&& shown.1 == (resync_requested && completion
                    == PublicSyncResetCompletion::ResetAttempted)
                &&& shown.0@ == match result {
                    Ok(report) => (if resync_requested {
                        "PPOI data reset; removed "@
                    } else {
                        "Persisted PPOI data reset; removed "@
                    }) + decimal(report.data_records_removed as nat) + " data records and "@
                        + decimal(report.chunk_records_removed as nat) + (if resync_requested {
                        " downloaded chunks; rebuilding"@
                    } else {
                        " downloaded chunks"@
                    }),
                    Err(error) => "Failed to reset PPOI data: "@ + error@,
                }
            },
            ResetOutcome::TaskFailed(error) => !shown.1 && shown.0@
                == "PPOI data reset task failed: "@ + error@,
        },
{
    match outcome {
        ResetOutcome::Finished(result, completion) => {
            let safe = public_sync_reset_restart_is_safe(resync_requested, completion);
            let text = match result {
                Ok(report) => {
                    let mut text = if resync_requested {
                        "PPOI data reset; removed ".to_owned()
                    } else {
                        "Persisted PPOI data reset; removed ".to_owned()
                    };
                    text.append(&decimal_u64(report.data_records_removed));
                    text.append(" data records and ");
                    text.append(&decimal_u64(report.chunk_records_removed));
                    text.append(
                        if resync_requested {
                            " downloaded chunks; rebuilding"
                        } else {
                            " downloaded chunks"
                        },
                    );
                    text
                },
                Err(error) => crate::text::concat2("Failed to reset PPOI data: ", &error),
            };
            (text, safe)
        },
        ResetOutcome::TaskFailed(error) => (
            crate::text::concat2("PPOI data reset task failed: ", &error),
            false,
        ),
    }
}

/// What is shown once the local Merkle forest cache was reset, and whether that went through.
/// `outcome` is the error of the task, or what the reset came to.
pub fn merkle_reset_message(
    outcome: Result<Result<u64, String>, String>,
    resync_requested: bool,
) -> (shown: (String, bool))
    ensures
        match outcome {
            Ok(Ok(removed)) => shown.1 && shown.0@
                == "Local Merkle forest cache reset; cleared "@ + decimal(removed as nat) + (
            if resync_requested {
                " snapshot files and restarted private sync"@
            } else {
                " snapshot files"@
            }),
            Ok(Err(error)) => !shown.1 && shown.0@
                == "Failed to reset local Merkle forest cache: "@ + error@,
            Err(error) => !shown.1 && shown.0@
                == "Local Merkle forest cache reset task failed: "@ + error@,
        },
{
    match outcome {
        Ok(Ok(removed)) => (
            crate::text::concat3(
                "Local Merkle forest cache reset; cleared ",
                &decimal_u64(removed),
                if resync_requested {
                    " snapshot files and restarted private sync"
                } else {
                    " snapshot files"
                },
            ),
            true,
        ),
        Ok(Err(error)) => (
            crate::text::concat2("Failed to reset local Merkle forest cache: ", &error),
            false,
        ),
        Err(error) => (
            crate::text::concat2("Local Merkle forest cache reset task failed: ", &error),
            false,
        ),
    }
}

/// Each call does to the machine what it is named for.
pub proof fn calls_do_what_they_are_named_for(
    machine: WalletMaintenanceStateMachine,
    reset: WalletMaintenanceReset,
    generation: u64,
    status: String,
    calls: Seq<MaintenanceCall>,
    call: MaintenanceCall,
)
    ensures
        machine.after_call(MaintenanceCall::Acquire { reset, status }) == machine.after_acquire(
            reset,
            status,
        ).0,
        machine.after_call(MaintenanceCall::Complete { generation, status })
            == machine.after_complete(generation, status).0,
        machine.after_call(MaintenanceCall::ClearStatus) == machine.after_clear_status().0,
        machine.after_call(MaintenanceCall::IdleStatus { status }) == machine.after_idle_status(
            status,
        ).0,
        machine.after_calls(Seq::empty()) == machine,
        machine.after_calls(calls.push(call)) == machine.after_calls(calls).after_call(call),
        machine.valid() <==> machine.reset is Idle || machine.status is Some,
{
    assert(calls.push(call).drop_last() =~= calls);
}

/// Each reset says that it waits and that it begins.
pub proof fn resets_say_what_they_do()
    ensures
        wait_text(WalletMaintenanceReset::Poi)
            == "Wait for wallet sync cleanup before resetting PPOI data"@,
        wait_text(WalletMaintenanceReset::Public)
            == "Wait for wallet sync cleanup before resetting caches"@,
        wait_text(WalletMaintenanceReset::Merkle)
            == "Wait for wallet sync cleanup before resetting caches"@,
        begin_text(WalletMaintenanceReset::Public) == "Resetting public sync caches..."@,
        begin_text(WalletMaintenanceReset::Poi) == "Resetting PPOI data..."@,
        begin_text(WalletMaintenanceReset::Merkle) == "Resetting local Merkle forest cache..."@,
{
}

/// Every chain that failed counts once.
pub proof fn failed_chains_count_once(chains: Seq<ChainCacheReset>, chain: ChainCacheReset)
    ensures
        failed_count(Seq::empty()) == 0,
        chain.error is Some ==> failed_count(chains.push(chain)) == failed_count(chains) + 1,
        chain.error is None ==> failed_count(chains.push(chain)) == failed_count(chains),
{
    assert(chains.push(chain).drop_last() =~= chains);
}

/// The first failure is one alone, and is told by its chain, its contract and its error.
pub proof fn the_first_failure_is_unique(chains: Seq<ChainCacheReset>, a: int, b: int, error: String)
    ensures
        first_failed(chains, a) && first_failed(chains, b) ==> a == b,
        first_failed(chains, a) ==> 0 <= a < chains.len() && chains[a].error is Some,
        0 <= b < chains.len() && chains[b].error is Some && first_failed(chains, a) ==> a <= b,
        0 <= a < chains.len() && chains[a].error == Some(error) ==> failure_text(chains[a])
            == "chain "@ + decimal(chains[a].chain_id as nat) + " contract "@ + chains[a].contract@
            + ": "@ + error@,
{
    if first_failed(chains, a) && first_failed(chains, b) {
        if a < b {
            assert(chains[a].error is None);
        }
        if b < a {
            assert(chains[b].error is None);
        }
    }
    if 0 <= b < chains.len() && chains[b].error is Some && first_failed(chains, a) && b < a {
        assert(chains[b].error is None);
    }
}

} // verus!
