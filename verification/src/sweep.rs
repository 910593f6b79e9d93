//! The sweep: every configuration point under every optimizer profile.
//!
//! The caller runs the external tools, one at a time, and reports what came
//! of each. The sweep says what to do next. For every point the settings are
//! written, the build cache is cleaned and the artifact is built, once; then,
//! for every profile, the glue is generated, the artifact is optimized (or
//! left alone by a disabled profile), compressed, measured and recorded. A
//! failure of any step ends the sweep.

use vstd::prelude::*;
use vstd::string::*;
use crate::options::WasmOpt;
use crate::report::{columns, lemma_row_columns, MeasurementRow};
use crate::space::{ConfigPoint, ConfigSpace};
use crate::text::{fits_field, free_of, is_field, split};

verus! {

/// The step that a sweep waits for, or how it ended.
#[derive(Clone, Copy, Debug, PartialEq, Eq, Structural)]
pub enum Phase {
    /// The settings file of the current point is being written.
    Configuring,
    /// The build cache is being removed.
    Cleaning,
    /// The compiler runs.
    Building,
    /// The loader glue is being generated.
    Binding,
    /// The optimizer runs.
    Optimizing,
    /// The artifact is being compressed and sized.
    Compressing,
    /// The runtime is being measured.
    Measuring,
    /// The row is being written.
    Recording,
    /// Every row is written.
    Finished,
    /// A step failed and the sweep was given up.
    Aborted,
}

/// What the caller reports back after carrying out an action.
#[derive(Clone, Debug, PartialEq, Eq)]
pub enum SweepEvent {
    SettingsWritten,
    Cleaned,
    /// The compiler ran for `nanos` nanoseconds.
    Built { nanos: u128 },
    Bound,
    /// The optimizer ran for `nanos` nanoseconds.
    Optimized { nanos: u128 },
    /// The artifact has `size` bytes, its compressed copy `size_gzipped`.
    Compressed { size: u64, size_gzipped: u64 },
    /// The measurement succeeded, perhaps after retries; `frame_time` is the
    /// measured frame time in milliseconds, as text. A text that does not
    /// fit a column of the report counts as a failed measurement.
    Measured { frame_time: String },
    /// The row is written and flushed.
    Recorded,
    /// The step failed.
    Failed,
}

/// What the caller is to do next.
#[derive(Clone, Copy, Debug, PartialEq, Eq, Structural)]
pub enum SweepAction {
    /// Write the settings file of the current point.
    WriteSettings,
    Clean,
    Build,
    Bindgen,
    /// Run the optimizer with the current profile.
    Optimize,
    Compress,
    Measure,
    /// Write the current row.
    Record,
    /// The sweep is complete.
    Finish,
    /// The sweep is given up; `stage` is the step that failed.
    Abort { stage: Phase },
    /// The event came out of turn and was ignored.
    Nothing,
}

/// A sweep in progress.
#[derive(Clone, Debug, PartialEq, Eq)]
pub struct Sweep {
    /// The space that is swept.
    pub space: ConfigSpace,
    /// The number of points of the space.
    pub points: usize,
    /// The number of the current point.
    pub point: usize,
    /// The place of the current profile among the space's profiles.
    pub profile: usize,
    pub phase: Phase,
    /// Build time of the current point, in nanoseconds.
    pub build_nanos: u128,
    /// Optimizer time of the current point and profile, in nanoseconds.
    pub optimize_nanos: u128,
    /// Size of the current artifact, in bytes.
    pub size: u64,
    /// Size of the current artifact's compressed copy, in bytes.
    pub size_gzipped: u64,
    /// The measured frame time that waits to be recorded.
    pub frame_time: Option<String>,
}

impl SweepEvent {
    /// Whether the event reports a measurement whose frame time fits a column
    /// of the report.
    pub open spec fn is_measurement(self) -> bool {
        match self {
            SweepEvent::Measured { frame_time } => is_field(frame_time@),
            _ => false,
        }
    }
}

impl Phase {
    /// Whether the sweep still waits for a step.
    pub open spec fn running(self) -> bool {
        self != Phase::Finished && self != Phase::Aborted
    }

    /// Whether the step belongs to the work on one profile.
    pub open spec fn per_profile(self) -> bool {
        self == Phase::Binding || self == Phase::Optimizing || self == Phase::Compressing || self
            == Phase::Measuring || self == Phase::Recording
    }

    /// Whether the optimizer's time of the current profile is settled.
    pub open spec fn optimized(self) -> bool {
        self == Phase::Compressing || self == Phase::Measuring || self == Phase::Recording
    }

    /// What the sweep does in this phase, in words.
    pub open spec fn description(self) -> Seq<char> {
        match self {
            Phase::Configuring => "Writing the settings"@,
            Phase::Cleaning => "Cleaning"@,
            Phase::Building => "Building"@,
            Phase::Binding => "Generating the glue"@,
            Phase::Optimizing => "Optimizing"@,
            Phase::Compressing => "Compressing"@,
            Phase::Measuring => "Measuring"@,
            Phase::Recording => "Writing the report"@,
            Phase::Finished => "Finished"@,
            Phase::Aborted => "Aborted"@,
        }
    }

    /// Says in words what the sweep does in this phase, for messages that
    /// name the step that failed.
    pub fn describe(&self) -> (text: &'static str)
        ensures
            text@ == self.description(),
    {
        match self {
            Phase::Configuring => "Writing the settings",
            Phase::Cleaning => "Cleaning",
            Phase::Building => "Building",
            Phase::Binding => "Generating the glue",
            Phase::Optimizing => "Optimizing",
            Phase::Compressing => "Compressing",
            Phase::Measuring => "Measuring",
            Phase::Recording => "Writing the report",
            Phase::Finished => "Finished",
            Phase::Aborted => "Aborted",
        }
    }
}

impl Sweep {
    /// Whether the current profile runs the optimizer.
    pub open spec fn profile_enabled(&self) -> bool {
        self.profile < self.space.profiles.len() && self.space.profiles[self.profile as int]
            .is_enabled()
    }

    /// The state in which the work on profile `profile` of the current point
    /// begins or, where the point has no such profile, the work on the next
    /// point, or the end.
    pub open spec fn entering(self, profile: nat) -> (Sweep, SweepAction) {
        if profile < self.space.profiles.len() {
            (Sweep { profile: profile as usize, phase: Phase::Binding, ..self }, SweepAction::Bindgen)
        } else if self.point + 1 < self.points {
            (
                Sweep {
                    point: (self.point + 1) as usize,
                    profile: 0,
                    phase: Phase::Configuring,
                    ..self
                },
                SweepAction::WriteSettings,
            )
        } else {
            (
                Sweep { point: self.points, profile: 0, phase: Phase::Finished, ..self },
                SweepAction::Finish,
            )
        }
    }

    /// The state and the action that follow `event`. A failure gives the
    /// sweep up, and so does a measurement whose frame time does not fit a
    /// column of the report. An event that the state does not wait for
    /// changes nothing.
    pub open spec fn after(self, event: SweepEvent) -> (Sweep, SweepAction) {
        match (self.phase, event) {
            (Phase::Configuring, SweepEvent::SettingsWritten) => (
                Sweep { phase: Phase::Cleaning, ..self },
                SweepAction::Clean,
            ),
            (Phase::Cleaning, SweepEvent::Cleaned) => (
                Sweep { phase: Phase::Building, ..self },
                SweepAction::Build,
            ),
            (Phase::Building, SweepEvent::Built { nanos }) => (Sweep {
                build_nanos: nanos,
                ..self
            }).entering(0),
            (Phase::Binding, SweepEvent::Bound) => if self.profile_enabled() {
                (Sweep { phase: Phase::Optimizing, ..self }, SweepAction::Optimize)
            } else {
                (
                    Sweep { optimize_nanos: 0, phase: Phase::Compressing, ..self },
                    SweepAction::Compress,
                )
            },
            (Phase::Optimizing, SweepEvent::Optimized { nanos }) => (
                Sweep { optimize_nanos: nanos, phase: Phase::Compressing, ..self },
                SweepAction::Compress,
            ),
            (Phase::Compressing, SweepEvent::Compressed { size, size_gzipped }) => (
                Sweep { size, size_gzipped, phase: Phase::Measuring, ..self },
                SweepAction::Measure,
            ),
            (Phase::Measuring, SweepEvent::Measured { frame_time }) => if is_field(frame_time@) {
                (
                    Sweep { frame_time: Some(frame_time), phase: Phase::Recording, ..self },
                    SweepAction::Record,
                )
            } else {
                (
                    Sweep { phase: Phase::Aborted, ..self },
                    SweepAction::Abort { stage: Phase::Measuring },
                )
            },
            (Phase::Recording, SweepEvent::Recorded) => (Sweep { frame_time: None, ..self })
                .entering((self.profile + 1) as nat),
            (phase, SweepEvent::Failed) => if phase.running() {
                (Sweep { phase: Phase::Aborted, ..self }, SweepAction::Abort { stage: phase })
            } else {
                (self, SweepAction::Nothing)
            },
            _ => (self, SweepAction::Nothing),
        }
    }

    /// The state in which a sweep of `space` begins, and its first action.
    pub open spec fn beginning(space: ConfigSpace) -> (Sweep, SweepAction) {
        let fresh = Sweep {
            space,
            points: space.point_count() as usize,
            point: 0,
            profile: 0,
            phase: Phase::Configuring,
            build_nanos: 0,
            optimize_nanos: 0,
            size: 0,
            size_gzipped: 0,
            frame_time: None,
        };
        if space.point_count() > 0 {
            (fresh, SweepAction::WriteSettings)
        } else {
            (Sweep { phase: Phase::Finished, ..fresh }, SweepAction::Finish)
        }
    }

    /// The rows written so far: all rows of the points before the current
    /// one, and those of the current point's profiles before the current one.
    pub open spec fn rows_recorded(&self) -> nat {
        (self.point * self.space.profiles.len() + self.profile) as nat
    }

    /// Whether the sweep is in a state that a sweep can reach.
    pub open spec fn wf(&self) -> bool {
        &&& self.points == self.space.point_count()
        &&& if self.phase == Phase::Finished {
            self.point == self.points && self.profile == 0
        } else {
            self.point < self.points
        }
        &&& self.phase.per_profile() ==> self.profile < self.space.profiles.len()
        &&& self.phase.running() && !self.phase.per_profile() ==> self.profile == 0
        &&& self.phase == Phase::Optimizing ==> self.profile_enabled()
        &&& self.phase.optimized() && !self.profile_enabled() ==> self.optimize_nanos == 0
        &&& self.phase == Phase::Recording ==> (self.frame_time matches Some(text) && is_field(
            text@,
        ))
    }

    /// Whether a row is due: the sweep waits for one to be written and has
    /// all that goes into it.
    pub open spec fn row_is_due(&self) -> bool {
        &&& self.phase == Phase::Recording
        &&& self.point < self.space.point_count()
        &&& self.profile < self.space.profiles.len()
        &&& self.frame_time matches Some(text) && is_field(text@)
    }

    /// The row that is due: the current point and profile, with the times
    /// and sizes gathered for them and the frame time measured.
    pub open spec fn due_row(&self) -> MeasurementRow {
        MeasurementRow {
            point: self.space.point_at(self.point as nat),
            profile: self.space.profiles[self.profile as int],
            build_nanos: self.build_nanos,
            optimize_nanos: self.optimize_nanos,
            size: self.size,
            size_gzipped: self.size_gzipped,
            frame_time: self.frame_time->0,
        }
    }

    /// The state that the sweep is in after the events of `events`, in order.
    pub open spec fn run(self, events: Seq<SweepEvent>) -> Sweep
        decreases events.len(),
    {
        if events.len() == 0 {
            self
        } else {
            self.run(events.drop_last()).after(events.last()).0
        }
    }

    /// The number of rows that the caller reports as written in the course
    /// of `events`, each in answer to the sweep's request for it.
    pub open spec fn rows_written(self, events: Seq<SweepEvent>) -> nat
        decreases events.len(),
    {
        if events.len() == 0 {
            0
        } else {
            let earlier = events.drop_last();
            self.rows_written(earlier) + (if self.run(earlier).phase == Phase::Recording
                && events.last() == SweepEvent::Recorded {
                1nat
            } else {
                0nat
            })
        }
    }

    /// Begins a sweep of `space` and says what to do first. `None` means
    /// that the space has more points than the machine's word can count.
    pub fn start(space: ConfigSpace) -> (begun: Option<(Sweep, SweepAction)>)
        ensures
            begun == (if space.point_count() <= usize::MAX {
                Some(Self::beginning(space))
            } else {
                None
            }),
            begun matches Some(first) ==> first.0.wf() && first.0.rows_recorded() == 0,
    {
        let points = match space.count() {
            Some(points) => points,
            None => {
                return None;
            },
        };
        let phase = if points > 0 {
            Phase::Configuring
        } else {
            Phase::Finished
        };
        let action = if points > 0 {
            SweepAction::WriteSettings
        } else {
            SweepAction::Finish
        };
        let sweep = Sweep {
            space,
            points,
            point: 0,
            profile: 0,
            phase,
            build_nanos: 0,
            optimize_nanos: 0,
            size: 0,
            size_gzipped: 0,
            frame_time: None,
        };
        assert(sweep.wf());
        Some((sweep, action))
    }

    /// Moves on to profile `profile` of the current point, to the next point
    /// or to the end.
    fn enter(self, profile: usize) -> (next: (Sweep, SweepAction))
        ensures
            next == self.entering(profile as nat),
    {
        if profile < self.space.profiles.len() {
            (Sweep { profile, phase: Phase::Binding, ..self }, SweepAction::Bindgen)
        } else if self.points > 0 && self.point < self.points - 1 {
            let point = self.point + 1;
            (
                Sweep { point, profile: 0, phase: Phase::Configuring, ..self },
                SweepAction::WriteSettings,
            )
        } else {
            let point = self.points;
            (Sweep { point, profile: 0, phase: Phase::Finished, ..self }, SweepAction::Finish)
        }
    }

    /// Takes `event` in and says what to do next.
    pub fn step(self, event: SweepEvent) -> (next: (Sweep, SweepAction))
        ensures
            next == self.after(event),
    {
        match (self.phase, event) {
            (Phase::Configuring, SweepEvent::SettingsWritten) => (
                Sweep { phase: Phase::Cleaning, ..self },
                SweepAction::Clean,
            ),
            (Phase::Cleaning, SweepEvent::Cleaned) => (
                Sweep { phase: Phase::Building, ..self },
                SweepAction::Build,
            ),
            (Phase::Building, SweepEvent::Built { nanos }) => {
                let built = Sweep { build_nanos: nanos, ..self };
                built.enter(0)
            },
            (Phase::Binding, SweepEvent::Bound) => {
                let enabled = self.profile < self.space.profiles.len()
                    && self.space.profiles[self.profile].enabled();
                if enabled {
                    (Sweep { phase: Phase::Optimizing, ..self }, SweepAction::Optimize)
                } else {
                    (
                        Sweep { optimize_nanos: 0, phase: Phase::Compressing, ..self },
                        SweepAction::Compress,
                    )
                }
            },
            (Phase::Optimizing, SweepEvent::Optimized { nanos }) => (
                Sweep { optimize_nanos: nanos, phase: Phase::Compressing, ..self },
                SweepAction::Compress,
            ),
            (Phase::Compressing, SweepEvent::Compressed { size, size_gzipped }) => (
                Sweep { size, size_gzipped, phase: Phase::Measuring, ..self },
                SweepAction::Measure,
            ),
            (Phase::Measuring, SweepEvent::Measured { frame_time }) => {
                if fits_field(frame_time.as_str()) {
                    (
                        Sweep { frame_time: Some(frame_time), phase: Phase::Recording, ..self },
                        SweepAction::Record,
                    )
                } else {
                    (
                        Sweep { phase: Phase::Aborted, ..self },
                        SweepAction::Abort { stage: Phase::Measuring },
                    )
                }
            },
            (Phase::Recording, SweepEvent::Recorded) => {
                let profile = if self.profile < usize::MAX {
                    self.profile + 1
                } else {
                    self.space.profiles.len()
                };
                let written = Sweep { frame_time: None, ..self };
                written.enter(profile)
            },
            (phase, SweepEvent::Failed) => {
                match phase {
                    Phase::Finished | Phase::Aborted => (self, SweepAction::Nothing),
                    _ => (
                        Sweep { phase: Phase::Aborted, ..self },
                        SweepAction::Abort { stage: phase },
                    ),
                }
            },
            _ => (self, SweepAction::Nothing),
        }
    }

    /// Returns the configuration point that the sweep works on, if any.
    pub fn current_point(&self) -> (found: Option<ConfigPoint>)
        ensures
            found == (if self.point < self.space.point_count() {
                Some(self.space.point_at(self.point as nat))
            } else {
                None
            }),
    {
        self.space.point(self.point)
    }

    /// Returns the optimizer profile that the sweep works on, if any.
    pub fn current_profile(&self) -> (found: Option<WasmOpt>)
        ensures
            found == (if self.profile < self.space.profiles.len() {
                Some(self.space.profiles[self.profile as int])
            } else {
                None
            }),
    {
        if self.profile < self.space.profiles.len() {
            Some(self.space.profiles[self.profile])
        } else {
            None
        }
    }

    /// Makes the row that is due. There is a row only while the sweep waits
    /// for it to be written, and only with a frame time that fits a column:
    /// every row handed out has the header's columns and is a single line.
    pub fn row(&self) -> (found: Option<MeasurementRow>)
        ensures
            found == (if self.row_is_due() {
                Some(self.due_row())
            } else {
                None
            }),
            found matches Some(row) ==> {
                &&& row.fields().len() == columns().len()
                &&& split(row.text(), ',') == row.fields()
                &&& free_of(row.text(), '\n')
            },
    {
        match self.phase {
            Phase::Recording => {},
            _ => {
                return None;
            },
        }
        let point = match self.current_point() {
            Some(point) => point,
            None => {
                return None;
            },
        };
        let profile = match self.current_profile() {
            Some(profile) => profile,
            None => {
                return None;
            },
        };
        let frame_time = match &self.frame_time {
            Some(text) => {
                if !fits_field(text.as_str()) {
                    return None;
                }
                text.clone()
            },
            None => {
                return None;
            },
        };
        let row = MeasurementRow {
            point,
            profile,
            build_nanos: self.build_nanos,
            optimize_nanos: self.optimize_nanos,
            size: self.size,
            size_gzipped: self.size_gzipped,
            frame_time,
        };
        proof {
            lemma_row_columns(row);
        }
        Some(row)
    }
}

/// Every step leads from a reachable state to a reachable state.
pub proof fn lemma_step_keeps_wf(sweep: Sweep, event: SweepEvent)
    requires
        sweep.wf(),
    ensures
        sweep.after(event).0.wf(),
        sweep.after(event).0.space == sweep.space,
{
}

/// A row is counted exactly when the sweep hears that it was written: that
/// step adds one to the rows recorded, and no other step changes them,
/// except that a failure gives the sweep up where it stands.
pub proof fn lemma_rows_counted(sweep: Sweep, event: SweepEvent)
    requires
        sweep.wf(),
    ensures
        sweep.after(event).0.rows_recorded() == sweep.rows_recorded() + (if sweep.phase
            == Phase::Recording && event == SweepEvent::Recorded {
            1nat
        } else {
            0nat
        }),
{
    let profiles = sweep.space.profiles.len() as int;
    let point = sweep.point as int;
    assert((point + 1) * profiles == point * profiles + profiles) by (nonlinear_arith);
}

/// A finished sweep has written as many rows as the space has points times
/// the number of optimizer profiles.
pub proof fn lemma_finished_sweep_is_complete(sweep: Sweep)
    requires
        sweep.wf(),
        sweep.phase == Phase::Finished,
    ensures
        sweep.rows_recorded() == sweep.space.row_count(),
        sweep.rows_recorded() == sweep.space.opt_levels.len() * sweep.space.ltos.len()
            * sweep.space.codegen_units.len() * sweep.space.strips.len()
            * sweep.space.panics.len() * sweep.space.profiles.len(),
{
}

/// While a sweep runs, the row in hand is the one that the rows recorded
/// call for: row number `r` of a sweep belongs to point `r / profiles` and
/// to profile `r % profiles`.
pub proof fn lemma_row_order(sweep: Sweep)
    requires
        sweep.wf(),
        sweep.phase.per_profile(),
    ensures
        sweep.rows_recorded() < sweep.space.row_count(),
        sweep.point == sweep.rows_recorded() / (sweep.space.profiles.len() as nat),
        sweep.profile == sweep.rows_recorded() % (sweep.space.profiles.len() as nat),
{
    let profiles = sweep.space.profiles.len() as int;
    let point = sweep.point as int;
    let profile = sweep.profile as int;
    let points = sweep.points as int;
    vstd::arithmetic::div_mod::lemma_fundamental_div_mod_converse(
        point * profiles + profile,
        profiles,
        point,
        profile,
    );
    assert(point * profiles + profile < points * profiles) by (nonlinear_arith)
        requires
            0 <= point < points,
            0 <= profile < profiles,
    ;
}

/// A disabled profile costs no optimizer time: once the optimizer's turn is
/// over, the time on record for a disabled profile is zero, and so it is in
/// the row.
pub proof fn lemma_disabled_profile_takes_no_time(sweep: Sweep)
    requires
        sweep.wf(),
        sweep.phase == Phase::Recording,
        !sweep.due_row().profile.is_enabled(),
    ensures
        sweep.row_is_due(),
        sweep.due_row().optimize_nanos == 0,
{
}

/// A disabled profile never runs the optimizer: the optimizer is asked for
/// exactly when the glue is ready and the current profile is enabled.
pub proof fn lemma_optimizer_runs_when_enabled(sweep: Sweep, event: SweepEvent)
    ensures
        sweep.after(event).1 == SweepAction::Optimize <==> (sweep.phase == Phase::Binding && event
            == SweepEvent::Bound && sweep.profile_enabled()),
{
}

/// The artifact is built once per point: the build is asked for only after
/// the clean step of a point, and the build time on record changes only
/// when a build is reported.
pub proof fn lemma_build_is_shared(sweep: Sweep, event: SweepEvent)
    ensures
        sweep.after(event).1 == SweepAction::Build <==> (sweep.phase == Phase::Cleaning && event
            == SweepEvent::Cleaned),
        !(sweep.phase == Phase::Building && event is Built) ==> sweep.after(event).0.build_nanos
            == sweep.build_nanos,
        sweep.after(event).0.point != sweep.point ==> sweep.after(event).0.phase
            == Phase::Configuring || sweep.after(event).0.phase == Phase::Finished,
{
}

/// A row is asked for only after a successful measurement whose frame time
/// fits a column of the report, and that frame time is the one kept for the
/// row. A measurement whose frame time does not fit gives the sweep up.
pub proof fn lemma_rows_follow_measurements(sweep: Sweep, event: SweepEvent)
    ensures
        sweep.after(event).1 == SweepAction::Record <==> (sweep.phase == Phase::Measuring
            && event.is_measurement()),
        sweep.after(event).0.phase == Phase::Recording ==> sweep.phase == Phase::Recording || (
        sweep.phase == Phase::Measuring && event is Measured),
        sweep.phase == Phase::Measuring ==> (event matches SweepEvent::Measured { frame_time }
            ==> if is_field(frame_time@) {
            sweep.after(event).0.frame_time == Some(frame_time)
        } else {
            sweep.after(event) == (
                Sweep { phase: Phase::Aborted, ..sweep },
                SweepAction::Abort { stage: Phase::Measuring },
            )
        }),
{
}

/// A failure of any step ends the sweep, and nothing moves an ended sweep.
pub proof fn lemma_failure_is_fatal(sweep: Sweep, event: SweepEvent)
    ensures
        sweep.phase.running() ==> sweep.after(SweepEvent::Failed) == (
            Sweep { phase: Phase::Aborted, ..sweep },
            SweepAction::Abort { stage: sweep.phase },
        ),
        !sweep.phase.running() ==> sweep.after(event) == (sweep, SweepAction::Nothing),
{
}

/// Whatever the caller reports, a sweep stays in a reachable state and has
/// recorded exactly the rows that were written. A sweep that runs from its
/// beginning to its end has so written one row for every configuration point
/// under every optimizer profile: the product of the five dimensions'
/// lengths, times the number of profiles.
pub proof fn lemma_complete_sweep_writes_every_row(space: ConfigSpace, events: Seq<SweepEvent>)
    requires
        space.point_count() <= usize::MAX,
    ensures
        Sweep::beginning(space).0.run(events).wf(),
        Sweep::beginning(space).0.run(events).space == space,
        Sweep::beginning(space).0.run(events).rows_recorded() == Sweep::beginning(
            space,
        ).0.rows_written(events),
        Sweep::beginning(space).0.run(events).phase == Phase::Finished ==> Sweep::beginning(
            space,
        ).0.rows_written(events) == space.point_count() * space.profiles.len(),
    decreases events.len(),
{
    let first = Sweep::beginning(space).0;
    if events.len() > 0 {
        let earlier = events.drop_last();
        lemma_complete_sweep_writes_every_row(space, earlier);
        lemma_step_keeps_wf(first.run(earlier), events.last());
        lemma_rows_counted(first.run(earlier), events.last());
    }
}

/// Every row that is due keeps to the header: it has the header's eleven
/// columns, in order, and is a single line.
pub proof fn lemma_due_row_keeps_to_header(sweep: Sweep)
    ensures
        sweep.row_is_due() ==> {
            &&& sweep.due_row().fields().len() == columns().len()
            &&& split(sweep.due_row().text(), ',') == sweep.due_row().fields()
            &&& free_of(sweep.due_row().text(), '\n')
        },
{
    if sweep.row_is_due() {
        lemma_row_columns(sweep.due_row());
    }
}

} // verus!
