//! The run as a whole: gate, choice, direct chainload, one-shot variable,
//! default chainload.

use vstd::prelude::*;
use crate::chainload::ChainloadError;
use crate::config::{
    lookup_view, Choice, ChoiceLookupError, ChoiceSource, ChoiceView, Config, ConfigView,
};
use crate::helpers::{utf16_nul_terminated, utf16_nul_terminated_bytes};
use crate::nixos::{result_text, GenerationResolutionError};

verus! {

/// Name of the variable that tells the boot manager which entry to boot once.
pub const ONESHOT_VAR_NAME: &'static str = "LoaderEntryOneShot";

/// Vendor GUID under which that variable is kept.
pub const ONESHOT_VAR_VENDOR: &'static str = "4a67b082-0a4c-41cf-b6c7-440b29bb8c4f";

/// Attributes that the variable is written with: it is visible to boot
/// services and at run time.
pub const ONESHOT_VAR_ATTRIBUTES: u32 = 0x0000_0006;

/// What a look at the one-shot variable showed.
#[derive(Debug, Clone, Copy, PartialEq, Eq, Structural)]
pub enum GateReading {
    /// The variable exists.
    Present,
    /// The variable does not exist.
    Absent,
    /// The variable store could not be read.
    Unreadable,
}

/// Whether a choice is looked for after this reading: always, unless the
/// variable exists. A store that cannot be read does not hold the run up.
pub open spec fn gate_open(reading: GateReading) -> bool {
    reading != GateReading::Present
}

/// Whether a choice is looked for after this reading.
pub fn oneshot_gate_open(reading: GateReading) -> (open: bool)
    ensures
        open == gate_open(reading),
{
    match reading {
        GateReading::Present => false,
        _ => true,
    }
}

/// What the caller did for a `Boot` and what came of it.
#[derive(Debug, PartialEq, Eq)]
pub enum BootEvent {
    /// The controllers were connected, as far as they could be.
    Connected,
    /// The one-shot variable was looked at.
    Gate(GateReading),
    /// The choice was looked for.
    Choice(Result<Choice, ChoiceLookupError>),
    /// A loader was tried: `Ok` where it ran and returned.
    Chainloaded(Result<(), ChainloadError>),
    /// The newest generation was looked for.
    Generation(Result<String, GenerationResolutionError>),
    /// The one-shot variable was written, or could not be.
    OneshotWritten(bool),
}

/// A `BootEvent` as plain values.
pub enum BootEventView {
    Connected,
    Gate(GateReading),
    Choice(Result<ChoiceView, ChoiceLookupError>),
    Chainloaded(Result<(), ChainloadError>),
    Generation(Result<Seq<char>, GenerationResolutionError>),
    OneshotWritten(bool),
}

impl View for BootEvent {
    type V = BootEventView;

    open spec fn view(&self) -> BootEventView {
        match self {
            BootEvent::Connected => BootEventView::Connected,
            BootEvent::Gate(reading) => BootEventView::Gate(*reading),
            BootEvent::Choice(r) => BootEventView::Choice(lookup_view(*r)),
            BootEvent::Chainloaded(r) => BootEventView::Chainloaded(*r),
            BootEvent::Generation(r) => BootEventView::Generation(result_text(*r)),
            BootEvent::OneshotWritten(ok) => BootEventView::OneshotWritten(*ok),
        }
    }
}

/// What the caller is to do next for a `Boot`.
#[derive(Debug, PartialEq, Eq)]
pub enum BootAction {
    /// Connect all controllers; failures are of no account.
    ConnectControllers,
    /// See whether the one-shot variable exists.
    CheckOneshot,
    /// Look for the choice on the local volumes.
    LookupFs,
    /// Fetch the choice from this TFTP server.
    LookupTftp { server: String },
    /// Start the loader that `target` names.
    Chainload { target: String },
    /// Find the newest generation.
    ResolveGeneration,
    /// Write `data` to the one-shot variable, with the attributes
    /// `ONESHOT_VAR_ATTRIBUTES`: it is `entry_id` in UTF-16LE, closed by a NUL.
    WriteOneshot { entry_id: String, data: Vec<u8> },
    /// Leave, with this result.
    Exit(Result<(), ChainloadError>),
}

/// A `BootAction` as plain values.
pub enum BootActionView {
    ConnectControllers,
    CheckOneshot,
    LookupFs,
    LookupTftp { server: Seq<char> },
    Chainload { target: Seq<char> },
    ResolveGeneration,
    WriteOneshot { entry_id: Seq<char>, data: Seq<u8> },
    Exit(Result<(), ChainloadError>),
}

impl View for BootAction {
    type V = BootActionView;

    open spec fn view(&self) -> BootActionView {
        match self {
            BootAction::ConnectControllers => BootActionView::ConnectControllers,
            BootAction::CheckOneshot => BootActionView::CheckOneshot,
            BootAction::LookupFs => BootActionView::LookupFs,
            BootAction::LookupTftp { server } => BootActionView::LookupTftp { server: server@ },
            BootAction::Chainload { target } => BootActionView::Chainload { target: target@ },
            BootAction::ResolveGeneration => BootActionView::ResolveGeneration,
            BootAction::WriteOneshot { entry_id, data } => BootActionView::WriteOneshot {
                entry_id: entry_id@,
                data: data@,
            },
            BootAction::Exit(r) => BootActionView::Exit(*r),
        }
    }
}

/// Where a run stands.
#[derive(Debug, PartialEq, Eq)]
pub enum Phase {
    /// The controllers are being connected.
    Connecting,
    /// The one-shot variable is being looked at.
    Gate,
    /// The choice is being looked for on the local volumes.
    LookingUpFs,
    /// The choice is being fetched from a TFTP server.
    LookingUpTftp { server: String },
    /// The loader that was chosen is being tried.
    Direct { target: String },
    /// The newest generation is being looked for.
    Resolving,
    /// The one-shot variable is being written.
    Writing { entry_id: String },
    /// The default loader is being tried.
    Default,
    /// The run is over.
    Done(Result<(), ChainloadError>),
}

/// A `Phase` as plain values.
pub enum PhaseView {
    Connecting,
    Gate,
    LookingUpFs,
    LookingUpTftp { server: Seq<char> },
    Direct { target: Seq<char> },
    Resolving,
    Writing { entry_id: Seq<char> },
    Default,
    Done(Result<(), ChainloadError>),
}

impl View for Phase {
    type V = PhaseView;

    open spec fn view(&self) -> PhaseView {
        match self {
            Phase::Connecting => PhaseView::Connecting,
            Phase::Gate => PhaseView::Gate,
            Phase::LookingUpFs => PhaseView::LookingUpFs,
            Phase::LookingUpTftp { server } => PhaseView::LookingUpTftp { server: server@ },
            Phase::Direct { target } => PhaseView::Direct { target: target@ },
            Phase::Resolving => PhaseView::Resolving,
            Phase::Writing { entry_id } => PhaseView::Writing { entry_id: entry_id@ },
            Phase::Default => PhaseView::Default,
            Phase::Done(r) => PhaseView::Done(*r),
        }
    }
}

/// One run of the program, step by step.
///
/// The caller does what `pending` says and hands what came of it to
/// `handle`, until `pending` says `Exit`.
#[derive(Debug, PartialEq, Eq)]
pub struct Boot {
    /// The configuration of this run.
    pub config: Config,
    /// Where the run stands.
    pub phase: Phase,
}

/// A `Boot` as plain values.
pub struct BootView {
    pub config: ConfigView,
    pub phase: PhaseView,
}

impl View for Boot {
    type V = BootView;

    open spec fn view(&self) -> BootView {
        BootView { config: self.config@, phase: self.phase@ }
    }
}

impl BootView {
    /// This run in another phase.
    pub open spec fn at(self, phase: PhaseView) -> BootView {
        BootView { phase, ..self }
    }
}

/// The phase in which the choice is looked for. Where the choice is to come
/// from the network and no server is configured, it is not looked for at all.
pub open spec fn lookup_phase(config: ConfigView) -> PhaseView {
    match config.choice_source {
        ChoiceSource::Fs => PhaseView::LookingUpFs,
        ChoiceSource::Tftp => match config.tftp_ip {
            Some(server) => PhaseView::LookingUpTftp { server },
            None => PhaseView::Default,
        },
    }
}

/// The phase that follows a look at the one-shot variable.
pub open spec fn phase_after_gate(config: ConfigView, reading: GateReading) -> PhaseView {
    if gate_open(reading) {
        lookup_phase(config)
    } else {
        PhaseView::Default
    }
}

/// The phase that follows the lookup of the choice.
///
/// A mode with a configured loader has that loader tried. An entry is
/// written to the one-shot variable. For the newest generation, that is
/// looked for first. A mode without a configured loader, and a lookup that
/// failed, lead to the default loader.
pub open spec fn phase_after_choice(
    config: ConfigView,
    choice: Result<ChoiceView, ChoiceLookupError>,
) -> PhaseView {
    match choice {
        Ok(ChoiceView::Chainload(mode)) => match config.path_for_mode(mode) {
            Some(target) => PhaseView::Direct { target },
            None => PhaseView::Default,
        },
        Ok(ChoiceView::Entry(entry_id)) => PhaseView::Writing { entry_id },
        Ok(ChoiceView::NixosCurrent) => PhaseView::Resolving,
        Err(_) => PhaseView::Default,
    }
}

/// One step of a run. An event that does not answer what was asked leaves
/// the run as it is.
pub open spec fn boot_step(state: BootView, event: BootEventView) -> BootView {
    match state.phase {
        PhaseView::Connecting => match event {
            BootEventView::Connected => state.at(PhaseView::Gate),
            _ => state,
        },
        PhaseView::Gate => match event {
            BootEventView::Gate(reading) => state.at(phase_after_gate(state.config, reading)),
            _ => state,
        },
        PhaseView::LookingUpFs | PhaseView::LookingUpTftp { .. } => match event {
            BootEventView::Choice(choice) => state.at(phase_after_choice(state.config, choice)),
            _ => state,
        },
        PhaseView::Direct { .. } => match event {
            BootEventView::Chainloaded(Ok(())) => state.at(PhaseView::Done(Ok(()))),
            BootEventView::Chainloaded(Err(_)) => state.at(PhaseView::Default),
            _ => state,
        },
        PhaseView::Resolving => match event {
            BootEventView::Generation(Ok(entry_id)) => state.at(PhaseView::Writing { entry_id }),
            BootEventView::Generation(Err(_)) => state.at(PhaseView::Default),
            _ => state,
        },
        PhaseView::Writing { .. } => match event {
            BootEventView::OneshotWritten(_) => state.at(PhaseView::Default),
            _ => state,
        },
        PhaseView::Default => match event {
            BootEventView::Chainloaded(r) => state.at(PhaseView::Done(r)),
            _ => state,
        },
        PhaseView::Done(_) => state,
    }
}

/// What the caller is to do in a given state.
pub open spec fn boot_action(state: BootView) -> BootActionView {
    match state.phase {
        PhaseView::Connecting => BootActionView::ConnectControllers,
        PhaseView::Gate => BootActionView::CheckOneshot,
        PhaseView::LookingUpFs => BootActionView::LookupFs,
        PhaseView::LookingUpTftp { server } => BootActionView::LookupTftp { server },
        PhaseView::Direct { target } => BootActionView::Chainload { target },
        PhaseView::Resolving => BootActionView::ResolveGeneration,
        PhaseView::Writing { entry_id } => BootActionView::WriteOneshot {
            entry_id,
            data: utf16_nul_terminated(entry_id),
        },
        PhaseView::Default => BootActionView::Chainload {
            target: state.config.chainload_systemd_path,
        },
        PhaseView::Done(r) => BootActionView::Exit(r),
    }
}

/// The run after a sequence of events.
pub open spec fn boot_run(state: BootView, events: Seq<BootEventView>) -> BootView
    decreases events.len(),
{
    if events.len() == 0 {
        state
    } else {
        boot_step(boot_run(state, events.drop_last()), events.last())
    }
}

/// Whether an action looks for the choice.
pub open spec fn is_lookup(action: BootActionView) -> bool {
    action is LookupFs || action is LookupTftp
}

/// When the one-shot variable exists, the choice is never looked for:
/// whatever events follow, the run asks for no lookup, neither on the
/// volumes nor over the network. It goes on with the default loader.
pub proof fn lemma_gate_set_skips_lookup(state: BootView, events: Seq<BootEventView>)
    requires
        state.phase is Gate,
    ensures
        boot_action(boot_step(state, BootEventView::Gate(GateReading::Present)))
            == (BootActionView::Chainload { target: state.config.chainload_systemd_path }),
        !is_lookup(
            boot_action(
                boot_run(boot_step(state, BootEventView::Gate(GateReading::Present)), events),
            ),
        ),
{
    lemma_no_lookup_after_default(
        boot_step(state, BootEventView::Gate(GateReading::Present)),
        events,
    );
}

/// A lookup is asked for at one point alone: after a look at the one-shot
/// variable that did not find it set. No other step of any run leads to one.
pub proof fn lemma_lookup_begins_at_an_open_gate(state: BootView, event: BootEventView)
    requires
        !is_lookup(boot_action(state)),
        is_lookup(boot_action(boot_step(state, event))),
    ensures
        state.phase is Gate,
        event is Gate,
        gate_open(event->Gate_0),
{
}

/// Once the run has reached the default loader, it asks for no lookup any more.
pub proof fn lemma_no_lookup_after_default(state: BootView, events: Seq<BootEventView>)
    requires
        state.phase is Default || state.phase is Done,
    ensures
        boot_run(state, events).phase is Default || boot_run(state, events).phase is Done,
        !is_lookup(boot_action(boot_run(state, events))),
    decreases events.len(),
{
    if events.len() > 0 {
        lemma_no_lookup_after_default(state, events.drop_last());
    }
}

/// A choice of a mode for which no loader is configured falls through to
/// the default loader: the next action starts the default loader, nothing is
/// written to the one-shot variable, and the run ends with whatever the
/// default loader gives.
pub proof fn lemma_unconfigured_mode_falls_through(
    state: BootView,
    mode: Seq<char>,
    outcome: Result<(), ChainloadError>,
)
    requires
        state.phase is LookingUpFs || state.phase is LookingUpTftp,
        state.config.path_for_mode(mode) is None,
    ensures
        ({
            let next = boot_step(state, BootEventView::Choice(Ok(ChoiceView::Chainload(mode))));
            &&& next.phase is Default
            &&& boot_action(next) == (BootActionView::Chainload {
                target: state.config.chainload_systemd_path,
            })
            &&& boot_step(next, BootEventView::Chainloaded(outcome)).phase == PhaseView::Done(
                outcome,
            )
        }),
{
}

/// A run ends by a loader alone: by a chosen loader that ran, or by the
/// default loader, whatever that gave.
pub proof fn lemma_run_ends_by_a_chainload(state: BootView, event: BootEventView)
    requires
        !(state.phase is Done),
        boot_step(state, event).phase is Done,
    ensures
        event is Chainloaded,
        state.phase is Default || state.phase is Direct,
        state.phase is Default ==> boot_step(state, event).phase->Done_0 == event->Chainloaded_0,
        state.phase is Direct ==> event->Chainloaded_0 is Ok && boot_step(
            state,
            event,
        ).phase->Done_0 is Ok,
{
}

/// A run fails only where the default loader fails: no other step ends a
/// run with an error.
pub proof fn lemma_only_default_chainload_fails(state: BootView, event: BootEventView)
    requires
        !(state.phase is Done),
        boot_step(state, event).phase matches PhaseView::Done(r) && r is Err,
    ensures
        state.phase is Default,
        event == BootEventView::Chainloaded(boot_step(state, event).phase->Done_0),
{
}

/// The one-shot variable is written only with an entry that the operator
/// chose or that the search for the newest generation gave: a choice of a
/// mode, and a lookup that failed, write nothing.
pub proof fn lemma_only_entries_are_written(state: BootView, event: BootEventView)
    requires
        !(state.phase is Writing),
        boot_step(state, event).phase is Writing,
    ensures
        ({
            let entry_id = boot_step(state, event).phase->Writing_entry_id;
            ||| (state.phase is LookingUpFs || state.phase is LookingUpTftp) && event
                == BootEventView::Choice(Ok(ChoiceView::Entry(entry_id)))
            ||| state.phase is Resolving && event == BootEventView::Generation(Ok(entry_id))
        }),
        boot_action(boot_step(state, event)) == (BootActionView::WriteOneshot {
            entry_id: boot_step(state, event).phase->Writing_entry_id,
            data: utf16_nul_terminated(boot_step(state, event).phase->Writing_entry_id),
        }),
{
}

impl Boot {
    fn lookup(config: &Config) -> (phase: Phase)
        ensures
            phase@ == lookup_phase(config@),
    {
        match config.choice_source {
            ChoiceSource::Fs => Phase::LookingUpFs,
            ChoiceSource::Tftp => match &config.tftp_ip {
                Some(server) => Phase::LookingUpTftp { server: server.clone() },
                None => Phase::Default,
            },
        }
    }

    fn after_choice(config: &Config, choice: Result<Choice, ChoiceLookupError>) -> (phase: Phase)
        ensures
            phase@ == phase_after_choice(config@, lookup_view(choice)),
    {
        match choice {
            Ok(Choice::Chainload(mode)) => match config.chainload_path_for_mode(mode.as_str()) {
                Some(target) => Phase::Direct { target: target.to_owned() },
                None => Phase::Default,
            },
            Ok(Choice::Entry(entry_id)) => Phase::Writing { entry_id },
            Ok(Choice::NixosCurrent) => Phase::Resolving,
            Err(_) => Phase::Default,
        }
    }

    /// A run with this configuration that has done nothing yet.
    pub fn new(config: Config) -> (boot: Boot)
        ensures
            boot@ == (BootView { config: config@, phase: PhaseView::Connecting }),
    {
        Boot { config, phase: Phase::Connecting }
    }

    /// What the caller is to do next.
    pub fn pending(&self) -> (action: BootAction)
        ensures
            action@ == boot_action(self@),
    {
        match &self.phase {
            Phase::Connecting => BootAction::ConnectControllers,
            Phase::Gate => BootAction::CheckOneshot,
            Phase::LookingUpFs => BootAction::LookupFs,
            Phase::LookingUpTftp { server } => BootAction::LookupTftp { server: server.clone() },
            Phase::Direct { target } => BootAction::Chainload { target: target.clone() },
            Phase::Resolving => BootAction::ResolveGeneration,
            Phase::Writing { entry_id } => BootAction::WriteOneshot {
                entry_id: entry_id.clone(),
                data: utf16_nul_terminated_bytes(entry_id.as_str()),
            },
            Phase::Default => BootAction::Chainload {
                target: self.config.chainload_systemd_path.clone(),
            },
            Phase::Done(r) => BootAction::Exit(*r),
        }
    }

    /// Takes in what came of the pending action.
    pub fn handle(self, event: BootEvent) -> (next: Boot)
        ensures
            next@ == boot_step(self@, event@),
    {
        let Boot { config, phase } = self;
        match phase {
            Phase::Connecting => match event {
                BootEvent::Connected => Boot { config, phase: Phase::Gate },
                _ => Boot { config, phase: Phase::Connecting },
            },
            Phase::Gate => match event {
                BootEvent::Gate(reading) => {
                    let phase = if oneshot_gate_open(reading) {
                        Boot::lookup(&config)
                    } else {
                        Phase::Default
                    };
                    Boot { config, phase }
                },
                _ => Boot { config, phase: Phase::Gate },
            },
            Phase::LookingUpFs => match event {
                BootEvent::Choice(choice) => {
                    let phase = Boot::after_choice(&config, choice);
                    Boot { config, phase }
                },
                _ => Boot { config, phase: Phase::LookingUpFs },
            },
            Phase::LookingUpTftp { server } => match event {
                BootEvent::Choice(choice) => {
                    let phase = Boot::after_choice(&config, choice);
                    Boot { config, phase }
                },
                _ => Boot { config, phase: Phase::LookingUpTftp { server } },
            },
            Phase::Direct { target } => match event {
                BootEvent::Chainloaded(Ok(())) => Boot { config, phase: Phase::Done(Ok(())) },
                BootEvent::Chainloaded(Err(_)) => Boot { config, phase: Phase::Default },
                _ => Boot { config, phase: Phase::Direct { target } },
            },
            Phase::Resolving => match event {
                BootEvent::Generation(Ok(entry_id)) => Boot {
                    config,
                    phase: Phase::Writing { entry_id },
                },
                BootEvent::Generation(Err(_)) => Boot { config, phase: Phase::Default },
                _ => Boot { config, phase: Phase::Resolving },
            },
            Phase::Writing { entry_id } => match event {
                BootEvent::OneshotWritten(_) => Boot { config, phase: Phase::Default },
                _ => Boot { config, phase: Phase::Writing { entry_id } },
            },
            Phase::Default => match event {
                BootEvent::Chainloaded(r) => Boot { config, phase: Phase::Done(r) },
                _ => Boot { config, phase: Phase::Default },
            },
            Phase::Done(r) => Boot { config, phase: Phase::Done(r) },
        }
    }
}

} // verus!
