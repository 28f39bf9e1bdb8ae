//! Planning and bookkeeping of one capture batch.
//!
//! One trigger enumerates the connected displays afresh, records one shared
//! timestamp, and captures one frame per display in enumeration order. The
//! library decides the filenames up front (`plan_batch`) and aggregates the
//! per-display outcomes afterwards (`summarize`): one failing display never
//! hides the others, and the report names every failing ordinal with its
//! cause.

use vstd::prelude::*;
use crate::filename::{build_filename, filename_spec, raw_view_of};
use crate::clock::{current_timestamp, ts_shape};

verus! {

/// Which stage of one display's processing failed: grabbing the frame, or
/// writing the encoded image to disk.
#[derive(Clone, Copy, PartialEq, Eq, Structural, Debug)]
pub enum FailureKind {
    Capture,
    Write,
}

/// The outcome of one display's processing, as the capture collaborator
/// reports it: the frame was written, or one of the two stages failed with
/// a cause.
#[derive(Debug)]
pub enum StepOutcome {
    Written,
    CaptureFailed(String),
    WriteFailed(String),
}

/// One recorded failure: which display (by batch ordinal), which stage, and
/// the underlying cause.
#[derive(Debug)]
pub struct DisplayFailure {
    pub ordinal: usize,
    pub kind: FailureKind,
    pub cause: String,
}

/// Why a batch could not even start, or how it ended short of full success.
#[derive(Debug)]
pub enum BatchError {
    /// Display enumeration returned nothing; a batch never silently succeeds
    /// with zero displays.
    NoDisplays,
    /// The system clock could not be read as a representable moment, so the
    /// batch has no timestamp; reported as a failure, never as a panic.
    ClockUnreadable,
    /// At least one display failed; every failure is listed.
    DisplayFailures(Vec<DisplayFailure>),
}

/// The tally of one batch: how many frames were written, and every failure
/// in ordinal order.
#[derive(Debug)]
pub struct BatchReport {
    pub written: usize,
    pub failures: Vec<DisplayFailure>,
}

/// How a finished batch is ranked: every display written, some written and
/// some failed, or nothing written at all.
#[derive(Clone, Copy, PartialEq, Eq, Structural, Debug)]
pub enum BatchStatus {
    FullSuccess,
    PartialSuccess,
    FullFailure,
}

/// The mathematical content of one recorded failure.
pub open spec fn fail_view(f: DisplayFailure) -> (nat, FailureKind, Seq<char>) {
    (f.ordinal as nat, f.kind, f.cause@)
}

/// What one outcome at one ordinal contributes to the failure list.
pub open spec fn failure_entry(i: nat, o: StepOutcome) -> Seq<(nat, FailureKind, Seq<char>)> {
    match o {
        StepOutcome::Written => Seq::empty(),
        StepOutcome::CaptureFailed(c) => seq![(i, FailureKind::Capture, c@)],
        StepOutcome::WriteFailed(c) => seq![(i, FailureKind::Write, c@)],
    }
}

/// How many displays of a batch had their frame written.
pub open spec fn written_count(s: Seq<StepOutcome>) -> nat
    decreases s.len(),
{
    if s.len() == 0 {
        0
    } else {
        written_count(s.drop_last()) + (if s.last() is Written {
            1nat
        } else {
            0nat
        })
    }
}

/// The failures of a batch, in ordinal order, each with its stage and cause.
pub open spec fn failures_spec(s: Seq<StepOutcome>) -> Seq<(nat, FailureKind, Seq<char>)>
    decreases s.len(),
{
    if s.len() == 0 {
        Seq::empty()
    } else {
        failures_spec(s.drop_last()) + failure_entry((s.len() - 1) as nat, s.last())
    }
}

/// A correct plan: one filename per enumerated display, each built from the
/// shared timestamp, the display's ordinal and its raw name.
pub open spec fn plan_ok(ts: Seq<char>, names: Seq<Option<String>>, files: Seq<String>) -> bool {
    &&& files.len() == names.len()
    &&& forall|i: int|
        0 <= i < names.len() ==> (#[trigger] files[i])@ == filename_spec(
            ts,
            i as nat,
            raw_view_of(names[i]),
        )
}

/// What planning a batch returns for a given timestamp and enumeration:
/// `NoDisplays` exactly when the enumeration is empty, otherwise the full
/// list of filenames.
pub open spec fn plan_result_ok(
    ts: Seq<char>,
    names: Seq<Option<String>>,
    r: Result<Vec<String>, BatchError>,
) -> bool {
    &&& r is Err <==> names.len() == 0
    &&& (r matches Err(e) ==> e is NoDisplays)
    &&& (r matches Ok(files) ==> plan_ok(ts, names, files@))
}

/// Plans one batch: fails with `NoDisplays` exactly when the enumeration is
/// empty, and otherwise fixes, for every display in enumeration order, the
/// filename its frame will be written under. All filenames share the one
/// timestamp; the ordinal keeps them pairwise distinct.
pub fn plan_batch(ts: &str, names: &Vec<Option<String>>) -> (r: Result<Vec<String>, BatchError>)
    ensures
        plan_result_ok(ts@, names@, r),
{
    if names.len() == 0 {
        return Err(BatchError::NoDisplays);
    }
    let mut files: Vec<String> = Vec::new();
    let mut i: usize = 0;
    while i < names.len()
        invariant
            0 <= i <= names@.len(),
            files@.len() == i,
            forall|j: int|
                0 <= j < i ==> (#[trigger] files@[j])@ == filename_spec(
                    ts@,
                    j as nat,
                    raw_view_of(names@[j]),
                ),
        decreases names@.len() - i,
    {
        let raw: &str = match &names[i] {
            Some(s) => s.as_str(),
            None => "",
        };
        proof {
            reveal_strlit("");
            assert(raw@ =~= raw_view_of(names@[i as int]));
        }
        let f = build_filename(ts, i, raw);
        files.push(f);
        i += 1;
    }
    Ok(files)
}

/// Plans one batch against the clock: fails with `NoDisplays` exactly when
/// the enumeration is empty, otherwise records the shared timestamp once
/// (failing with `ClockUnreadable` when the clock cannot be read) and plans
/// exactly as `plan_batch` does with that timestamp. Every returned
/// timestamp has the sortable `YYYY-MM-DD_HH-MM-SS.mmm` shape.
pub fn plan_batch_now(names: &Vec<Option<String>>) -> (r: Result<
    (String, Vec<String>),
    BatchError,
>)
    ensures
        r matches Ok(p) ==> ts_shape(p.0@) && plan_ok(p.0@, names@, p.1@),
        names@.len() == 0 <==> (r matches Err(e) && e is NoDisplays),
        r matches Err(e) ==> (e is NoDisplays || e is ClockUnreadable),
{
    if names.len() == 0 {
        return Err(BatchError::NoDisplays);
    }
    let ts = match current_timestamp() {
        Some(ts) => ts,
        None => {
            return Err(BatchError::ClockUnreadable);
        },
    };
    match plan_batch(ts.as_str(), names) {
        Ok(files) => Ok((ts, files)),
        Err(e) => Err(e),
    }
}

/// Tallies one batch from the per-display outcomes, in enumeration order:
/// counts the frames written and records every failure with its ordinal,
/// stage and cause. One failing display never hides the others.
pub fn summarize(outcomes: &Vec<StepOutcome>) -> (r: BatchReport)
    ensures
        r.written == written_count(outcomes@),
        r.written <= outcomes@.len(),
        r.failures@.map_values(|f: DisplayFailure| fail_view(f)) == failures_spec(outcomes@),
{
    let mut written: usize = 0;
    let mut failures: Vec<DisplayFailure> = Vec::new();
    let mut i: usize = 0;
    while i < outcomes.len()
        invariant
            0 <= i <= outcomes@.len(),
            written <= i,
            written == written_count(outcomes@.take(i as int)),
            failures@.map_values(|f: DisplayFailure| fail_view(f)) == failures_spec(
                outcomes@.take(i as int),
            ),
        decreases outcomes@.len() - i,
    {
        proof {
            assert(outcomes@.take(i + 1).drop_last() =~= outcomes@.take(i as int));
            assert(outcomes@.take(i + 1).last() == outcomes@[i as int]);
        }
        match &outcomes[i] {
            StepOutcome::Written => {
                written += 1;
            },
            StepOutcome::CaptureFailed(c) => {
                failures.push(
                    DisplayFailure { ordinal: i, kind: FailureKind::Capture, cause: c.clone() },
                );
                proof {
                    assert(failures@.map_values(|f: DisplayFailure| fail_view(f)) =~= failures_spec(
                        outcomes@.take(i + 1),
                    ));
                }
            },
            StepOutcome::WriteFailed(c) => {
                failures.push(
                    DisplayFailure { ordinal: i, kind: FailureKind::Write, cause: c.clone() },
                );
                proof {
                    assert(failures@.map_values(|f: DisplayFailure| fail_view(f)) =~= failures_spec(
                        outcomes@.take(i + 1),
                    ));
                }
            },
        }
        i += 1;
    }
    proof {
        assert(outcomes@.take(outcomes@.len() as int) =~= outcomes@);
    }
    BatchReport { written, failures }
}

impl BatchReport {
    /// Ranks the batch: full success (no failures), partial success (some
    /// frames written, some displays failed), or full failure (failures and
    /// nothing written).
    pub fn status(&self) -> (s: BatchStatus)
        ensures
            s == BatchStatus::FullSuccess <==> self.failures@.len() == 0,
            s == BatchStatus::FullFailure <==> (self.failures@.len() > 0 && self.written == 0),
            s == BatchStatus::PartialSuccess <==> (self.failures@.len() > 0 && self.written > 0),
    {
        if self.failures.len() == 0 {
            BatchStatus::FullSuccess
        } else if self.written == 0 {
            BatchStatus::FullFailure
        } else {
            BatchStatus::PartialSuccess
        }
    }

    /// The batch as a count-or-error result: the number of frames written on
    /// full success, otherwise the full failure list.
    pub fn into_result(self) -> (r: Result<usize, BatchError>)
        ensures
            r == if self.failures@.len() == 0 {
                Result::<usize, BatchError>::Ok(self.written)
            } else {
                Result::<usize, BatchError>::Err(BatchError::DisplayFailures(self.failures))
            },
    {
        if self.failures.len() == 0 {
            Ok(self.written)
        } else {
            Err(BatchError::DisplayFailures(self.failures))
        }
    }
}

/// The filenames of one plan are pairwise distinct, whatever the displays
/// are named: even two displays with identical raw names, or names that
/// sanitize to the same text, collide on nothing, because each filename
/// carries its display's ordinal.
pub proof fn lemma_plan_filenames_distinct(
    ts: Seq<char>,
    names: Seq<Option<String>>,
    files: Seq<String>,
)
    requires
        plan_ok(ts, names, files),
    ensures
        forall|i: int, j: int|
            0 <= i < j < files.len() ==> (#[trigger] files[i])@ != (#[trigger] files[j])@,
{
    assert forall|i: int, j: int| 0 <= i < j < files.len() implies (#[trigger] files[i])@ != (
    #[trigger] files[j])@ by {
        crate::filename::lemma_filename_unique_any(
            ts,
            i as nat,
            j as nat,
            raw_view_of(names[i]),
            raw_view_of(names[j]),
        );
    }
}

/// With a well-shaped timestamp no planned filename contains a path
/// separator: the batch's only filesystem effect is new files directly
/// inside the target directory, never in a subdirectory or outside it.
pub proof fn lemma_plan_stays_in_directory(
    ts: Seq<char>,
    names: Seq<Option<String>>,
    files: Seq<String>,
)
    requires
        plan_ok(ts, names, files),
        ts_shape(ts),
    ensures
        forall|i: int, j: int|
            0 <= i < files.len() && 0 <= j < files[i]@.len() ==> (#[trigger] files[i]@[j]) != '/'
                && files[i]@[j] != '\\',
{
    crate::clock::lemma_ts_shape_chars(ts);
    assert forall|i: int, j: int|
        0 <= i < files.len() && 0 <= j < files[i]@.len() implies (#[trigger] files[i]@[j]) != '/'
        && files[i]@[j] != '\\' by {
        crate::filename::lemma_filename_no_separator(ts, i as nat, raw_view_of(names[i]));
    }
}

/// With a well-shaped timestamp whose year carries no sign (any year
/// 0–9999), every planned filename is filesystem-safe end to end: only
/// ASCII letters, digits, `-`, `_` and `.` appear, the part before the
/// `.png` extension is never empty, and the filename ends in `.png`.
pub proof fn lemma_plan_filenames_safe(
    ts: Seq<char>,
    names: Seq<Option<String>>,
    files: Seq<String>,
)
    requires
        plan_ok(ts, names, files),
        ts_shape(ts),
        crate::filename::digit(ts[0]),
    ensures
        forall|i: int, j: int|
            0 <= i < files.len() && 0 <= j < files[i]@.len() ==> crate::filename::fname_char(
                #[trigger] files[i]@[j],
            ),
        forall|i: int|
            0 <= i < files.len() ==> (#[trigger] files[i])@.len()
                >= crate::filename::ext_seq().len() + 3,
        forall|i: int|
            0 <= i < files.len() ==> (#[trigger] files[i])@.skip(
                files[i]@.len() - crate::filename::ext_seq().len(),
            ) == crate::filename::ext_seq(),
{
    crate::clock::lemma_ts_shape_chars(ts);
    assert forall|i: int, j: int|
        0 <= i < files.len() && 0 <= j < files[i]@.len() implies crate::filename::fname_char(
        #[trigger] files[i]@[j],
    ) by {
        crate::filename::lemma_filename_safe(ts, i as nat, raw_view_of(names[i]));
    }
    assert forall|i: int| 0 <= i < files.len() implies (#[trigger] files[i])@.len()
        >= crate::filename::ext_seq().len() + 3 by {
        crate::filename::lemma_filename_safe(ts, i as nat, raw_view_of(names[i]));
    }
    assert forall|i: int| 0 <= i < files.len() implies (#[trigger] files[i])@.skip(
        files[i]@.len() - crate::filename::ext_seq().len(),
    ) == crate::filename::ext_seq() by {
        crate::filename::lemma_filename_safe(ts, i as nat, raw_view_of(names[i]));
    }
}

/// A batch in which every display's frame is grabbed and written reports
/// one write per display and no failures: the number of files equals the
/// number of enumerated displays.
pub proof fn lemma_all_written(outcomes: Seq<StepOutcome>)
    requires
        forall|j: int| 0 <= j < outcomes.len() ==> (#[trigger] outcomes[j]) is Written,
    ensures
        written_count(outcomes) == outcomes.len(),
        failures_spec(outcomes) == Seq::<(nat, FailureKind, Seq<char>)>::empty(),
    decreases outcomes.len(),
{
    if outcomes.len() > 0 {
        lemma_all_written(outcomes.drop_last());
        assert(failures_spec(outcomes) =~= Seq::<(nat, FailureKind, Seq<char>)>::empty());
    }
}

/// When exactly one display fails its frame grab and every other display is
/// written, the batch still writes all the other frames and reports exactly
/// the one capture failure, under the failing ordinal.
pub proof fn lemma_single_capture_failure(outcomes: Seq<StepOutcome>, k: int)
    requires
        0 <= k < outcomes.len(),
        outcomes[k] is CaptureFailed,
        forall|j: int|
            0 <= j < outcomes.len() && j != k ==> (#[trigger] outcomes[j]) is Written,
    ensures
        written_count(outcomes) == outcomes.len() - 1,
        failures_spec(outcomes).len() == 1,
        failures_spec(outcomes)[0].0 == k as nat,
        failures_spec(outcomes)[0].1 == FailureKind::Capture,
    decreases outcomes.len(),
{
    if k == outcomes.len() - 1 {
        lemma_all_written(outcomes.drop_last());
    } else {
        lemma_single_capture_failure(outcomes.drop_last(), k);
    }
}

} // verus!
