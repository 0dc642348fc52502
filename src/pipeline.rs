use vstd::prelude::*;
use crate::geofence::{views, Geofence};
use crate::model::{Component, ErrorKind, PilotRecord, PipelineError, TelemetrySnapshot};
use crate::resolve::{entry_for, resolve_pilots, PilotEntry};

verus! {

/// Where one run of the pipeline stands. The run goes
/// `Start -> ViolationsComputed -> PilotsResolved -> Done`, or from `Start`
/// straight to `Done` when no drone is inside the fence, or to `Failed` when
/// the telemetry cannot be had. The snapshot itself is consumed by the step
/// that receives it, since computing the violations cannot fail.
#[derive(Debug)]
pub enum Stage {
    Start,
    ViolationsComputed { violators: Vec<String> },
    PilotsResolved { entries: Vec<PilotEntry> },
    Done { entries: Vec<PilotEntry> },
    Failed { error: PipelineError },
}

/// The mathematical view of a [`Stage`].
pub enum StageView {
    Start,
    ViolationsComputed(Seq<Seq<char>>),
    PilotsResolved(Seq<PilotEntry>),
    Done(Seq<PilotEntry>),
    Failed(PipelineError),
}

impl View for Stage {
    type V = StageView;

    open spec fn view(&self) -> StageView {
        match self {
            Stage::Start => StageView::Start,
            Stage::ViolationsComputed { violators } => StageView::ViolationsComputed(views(violators@)),
            Stage::PilotsResolved { entries } => StageView::PilotsResolved(entries@),
            Stage::Done { entries } => StageView::Done(entries@),
            Stage::Failed { error } => StageView::Failed(*error),
        }
    }
}

/// What the driver of the pipeline has to do next.
#[derive(Debug)]
pub enum Action {
    /// Fetch one telemetry snapshot and hand it to `on_telemetry`.
    FetchTelemetry,
    /// Look up each of these serial numbers and hand the outcomes, in this
    /// order, to `on_pilots`.
    ResolvePilots { serial_numbers: Vec<String> },
    /// Hand the resolved entries to the sink, then call `on_emitted`.
    Emit,
    /// The run is over.
    Stop,
}

/// The mathematical view of an [`Action`].
pub enum ActionView {
    FetchTelemetry,
    ResolvePilots(Seq<Seq<char>>),
    Emit,
    Stop,
}

impl View for Action {
    type V = ActionView;

    open spec fn view(&self) -> ActionView {
        match self {
            Action::FetchTelemetry => ActionView::FetchTelemetry,
            Action::ResolvePilots { serial_numbers } => ActionView::ResolvePilots(views(serial_numbers@)),
            Action::Emit => ActionView::Emit,
            Action::Stop => ActionView::Stop,
        }
    }
}

/// The action owed in each stage.
pub open spec fn action_of(s: StageView) -> ActionView {
    match s {
        StageView::Start => ActionView::FetchTelemetry,
        StageView::ViolationsComputed(ids) => ActionView::ResolvePilots(ids),
        StageView::PilotsResolved(_) => ActionView::Emit,
        StageView::Done(_) => ActionView::Stop,
        StageView::Failed(_) => ActionView::Stop,
    }
}

/// The stage after the telemetry step: a failed fetch is fatal, an empty
/// violation set ends the run with no lookup at all.
pub open spec fn after_telemetry(g: Geofence, fetched: Result<TelemetrySnapshot, ErrorKind>) -> StageView {
    match fetched {
        Err(k) => StageView::Failed(PipelineError {
            component: Component::TelemetryFetcher,
            kind: k,
            serial_number: None,
        }),
        Ok(s) => {
            let ids = g.violator_ids(s.drones@);
            if ids.len() == 0 {
                StageView::Done(Seq::empty())
            } else {
                StageView::ViolationsComputed(ids)
            }
        },
    }
}

/// The entries recorded after the lookups of `ids` ended in `outcomes`.
pub open spec fn resolved_entries(
    ids: Seq<Seq<char>>,
    outcomes: Seq<Result<PilotRecord, ErrorKind>>,
    entries: Seq<PilotEntry>,
) -> bool {
    &&& entries.len() == ids.len()
    &&& forall|i: int| 0 <= i < ids.len() ==> {
        &&& (#[trigger] entries[i]).serial_number@ == ids[i]
        &&& entry_for(entries[i].serial_number, outcomes[i], entries[i])
    }
}

/// One run of the pipeline, driven from outside: the driver asks for
/// `next_action`, performs it and reports the outcome.
#[derive(Debug)]
pub struct Pipeline {
    pub geofence: Geofence,
    pub stage: Stage,
}

impl Pipeline {
    /// A violation set in progress is never empty and has no duplicates.
    pub open spec fn wf(&self) -> bool {
        match self.stage@ {
            StageView::ViolationsComputed(ids) => ids.len() > 0 && ids.no_duplicates(),
            _ => true,
        }
    }

    pub fn new(geofence: Geofence) -> (r: Pipeline)
        ensures
            r.geofence == geofence,
            r.stage@ == StageView::Start,
            r.wf(),
    {
        Pipeline { geofence, stage: Stage::Start }
    }

    pub fn next_action(&self) -> (r: Action)
        ensures
            r@ == action_of(self.stage@),
    {
        match &self.stage {
            Stage::Start => Action::FetchTelemetry,
            Stage::ViolationsComputed { violators } => Action::ResolvePilots {
                serial_numbers: clone_strings(violators),
            },
            Stage::PilotsResolved { .. } => Action::Emit,
            Stage::Done { .. } => Action::Stop,
            Stage::Failed { .. } => Action::Stop,
        }
    }

    /// Receives the outcome of the telemetry fetch. Outside `Start` nothing
    /// changes and `false` is returned.
    pub fn on_telemetry(&mut self, fetched: Result<TelemetrySnapshot, ErrorKind>) -> (accepted: bool)
        requires
            old(self).wf(),
        ensures
            final(self).wf(),
            final(self).geofence == old(self).geofence,
            accepted == (old(self).stage@ is Start),
            accepted ==> final(self).stage@ == after_telemetry(old(self).geofence, fetched),
            !accepted ==> final(self).stage@ == old(self).stage@,
    {
        match &self.stage {
            Stage::Start => {},
            _ => {
                return false;
            },
        }
        match fetched {
            Err(k) => {
                self.stage = Stage::Failed {
                    error: PipelineError { component: Component::TelemetryFetcher, kind: k, serial_number: None },
                };
            },
            Ok(snapshot) => {
                let violators = self.geofence.find_drone_violations(&snapshot.drones);
                if violators.len() == 0 {
                    self.stage = Stage::Done { entries: Vec::new() };
                } else {
                    self.stage = Stage::ViolationsComputed { violators };
                }
            },
        }
        true
    }

    /// Receives the lookup outcomes of the serial numbers that
    /// `next_action` listed, in that order. Nothing changes, and `false` is
    /// returned, outside `ViolationsComputed` or when the count differs.
    pub fn on_pilots(&mut self, outcomes: Vec<Result<PilotRecord, ErrorKind>>) -> (accepted: bool)
        requires
            old(self).wf(),
        ensures
            final(self).wf(),
            final(self).geofence == old(self).geofence,
            accepted == (old(self).stage@ matches StageView::ViolationsComputed(ids)
                && ids.len() == outcomes@.len()),
            accepted ==> (final(self).stage@ matches StageView::PilotsResolved(entries)
                && resolved_entries(old(self).stage@->ViolationsComputed_0, outcomes@, entries)),
            !accepted ==> final(self).stage@ == old(self).stage@,
    {
        let entries = match &self.stage {
            Stage::ViolationsComputed { violators } => {
                if violators.len() != outcomes.len() {
                    return false;
                }
                let entries = resolve_pilots(violators, outcomes);
                proof {
                    assert forall|i: int| 0 <= i < violators@.len() implies
                        (#[trigger] entries@[i]).serial_number@ == views(violators@)[i]
                        && entry_for(entries@[i].serial_number, outcomes@[i], entries@[i]) by {
                        assert(entry_for(violators@[i], outcomes@[i], entries@[i]));
                    }
                }
                entries
            },
            _ => {
                return false;
            },
        };
        self.stage = Stage::PilotsResolved { entries };
        true
    }

    /// Records that the entries were handed to the sink: the run is done,
    /// with the same entries. Outside `PilotsResolved` nothing changes.
    pub fn on_emitted(&mut self) -> (accepted: bool)
        requires
            old(self).wf(),
        ensures
            final(self).wf(),
            final(self).geofence == old(self).geofence,
            accepted == (old(self).stage@ is PilotsResolved),
            accepted ==> final(self).stage@ == StageView::Done(old(self).stage@->PilotsResolved_0),
            !accepted ==> final(self).stage@ == old(self).stage@,
    {
        let mut taken = Stage::Start;
        std::mem::swap(&mut self.stage, &mut taken);
        match taken {
            Stage::PilotsResolved { entries } => {
                self.stage = Stage::Done { entries };
                true
            },
            other => {
                self.stage = other;
                false
            },
        }
    }
}

/// With no drone inside the fence the run ends right after the telemetry
/// step, with an empty result set and no pilot lookup asked for.
pub proof fn lemma_no_violators_no_lookups(g: Geofence, snapshot: TelemetrySnapshot)
    requires
        forall|i: int| 0 <= i < snapshot.drones@.len() ==> !g.violates(#[trigger] snapshot.drones@[i]),
    ensures
        after_telemetry(g, Ok(snapshot)) == StageView::Done(Seq::<PilotEntry>::empty()),
        action_of(after_telemetry(g, Ok(snapshot))) == ActionView::Stop,
{
    g.lemma_violators_exact(snapshot.drones@);
    if g.violator_ids(snapshot.drones@).len() > 0 {
        assert(g.violator_ids(snapshot.drones@).contains(g.violator_ids(snapshot.drones@)[0]));
    }
}

/// A failed telemetry fetch ends the run in `Failed`, tagged with the
/// fetcher and the error's kind, and no pilot lookup is asked for.
pub proof fn lemma_failed_fetch_is_fatal(g: Geofence, kind: ErrorKind)
    ensures
        after_telemetry(g, Err(kind)) matches StageView::Failed(e)
            && e.component == Component::TelemetryFetcher && e.kind == kind,
        action_of(after_telemetry(g, Err(kind))) == ActionView::Stop,
{
}

/// A copy of a list of strings.
fn clone_strings(v: &Vec<String>) -> (r: Vec<String>)
    ensures
        r@ == v@,
{
    let mut r: Vec<String> = Vec::new();
    let mut i: usize = 0;
    while i < v.len()
        invariant
            i <= v@.len(),
            r@ == v@.subrange(0, i as int),
        decreases v@.len() - i,
    {
        r.push(v[i].clone());
        i = i + 1;
        assert(r@ == v@.subrange(0, i as int));
    }
    r
}

} // verus!
