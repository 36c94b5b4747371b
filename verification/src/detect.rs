//! Aggregation of per-core verdicts into a partition layout, and the
//! decisions of a detection request.  Spawning the pinned probe children is
//! the surrounding application's job; given the ordered sequence of what each
//! child reported, everything from there to the final layout is decided here.

use crate::labels::{parse_captured_label, spec_parse_label, CoreType};
use crate::layout::{CorePELayout, CoreRange};
use crate::text::spec_trim;
use crate::CoreTypeFetchError;
use vstd::prelude::*;

verus! {

/// How many of the labels are P.
pub open spec fn count_p(s: Seq<CoreType>) -> nat
    decreases s.len(),
{
    if s.len() == 0 {
        0
    } else {
        count_p(s.drop_last()) + if s.last() is P {
            1nat
        } else {
            0nat
        }
    }
}

pub proof fn lemma_count_p_le_len(s: Seq<CoreType>)
    ensures
        count_p(s) <= s.len(),
    decreases s.len(),
{
    if s.len() > 0 {
        lemma_count_p_le_len(s.drop_last());
    }
}

/// The layout built from a verdict sequence: the P range covers as many
/// indices, starting at 0, as there are P labels; the E range covers the
/// rest.  A sequence without a single P label cannot be partitioned this way
/// and is reported as an unrecognized core type.
pub open spec fn spec_build_layout(labels: Seq<CoreType>) -> Result<
    CorePELayout,
    CoreTypeFetchError,
> {
    if count_p(labels) == 0 {
        Err(CoreTypeFetchError::UnknownCoreType)
    } else {
        Ok(
            CorePELayout {
                p_cores: CoreRange { start: 0, end: (count_p(labels) - 1) as u8 },
                e_cores: CoreRange {
                    start: count_p(labels) as u8,
                    end: (labels.len() - 1) as u8,
                },
            },
        )
    }
}

/// Reduce an ordered verdict sequence (index is the logical CPU id) to the
/// partition layout.  The boundary lies after the last P label; a sequence
/// with no P label at all is an error rather than an underflowing range.
pub fn build_layout(labels: Vec<CoreType>) -> (r: Result<CorePELayout, CoreTypeFetchError>)
    requires
        labels@.len() <= 255,
    ensures
        r == spec_build_layout(labels@),
{
    let mut p_count: usize = 0;
    let mut i: usize = 0;
    while i < labels.len()
        invariant
            i <= labels@.len() <= 255,
            p_count == count_p(labels@.subrange(0, i as int)),
        decreases labels@.len() - i,
    {
        proof {
            lemma_count_p_le_len(labels@.subrange(0, i as int));
            assert(labels@.subrange(0, i + 1).drop_last() =~= labels@.subrange(0, i as int));
        }
        if labels[i] == CoreType::P {
            p_count += 1;
        }
        i += 1;
    }
    proof {
        assert(labels@.subrange(0, labels@.len() as int) =~= labels@);
        lemma_count_p_le_len(labels@);
    }
    if p_count == 0 {
        Err(CoreTypeFetchError::UnknownCoreType)
    } else {
        Ok(CorePELayout::new((p_count - 1) as u8, labels.len() as u8))
    }
}

/// For any verdict sequence of valid labels with at least one P, the built
/// layout partitions the index domain: every logical index up to the sequence
/// length lies in exactly one of the two ranges, and no other index lies in
/// either.
pub proof fn lemma_build_layout_partitions(labels: Seq<CoreType>)
    requires
        1 <= labels.len() <= 255,
        count_p(labels) >= 1,
    ensures
        spec_build_layout(labels) is Ok,
        forall|i: int|
            #[trigger] spec_build_layout(labels)->Ok_0.covers(i) <==> 0 <= i < labels.len(),
        forall|i: int|
            !(spec_build_layout(labels)->Ok_0.p_cores.spec_contains(i)
                && spec_build_layout(labels)->Ok_0.e_cores.spec_contains(i)),
{
    lemma_count_p_le_len(labels);
}

/// What one probe child came back with, as the prober captured it.
#[derive(Debug, Clone, PartialEq, Eq)]
pub enum ProbeOutcome {
    /// The child ran to completion and printed this text.
    Captured(String),
    /// The child could not be spawned or awaited.
    SpawnFailed,
}

/// The verdict a probe outcome carries: the captured text, trimmed, parsed as
/// a label; a failed spawn carries none.
pub open spec fn spec_outcome_label(o: ProbeOutcome) -> Option<CoreType> {
    match o {
        ProbeOutcome::Captured(s) => spec_parse_label(spec_trim(s@)),
        ProbeOutcome::SpawnFailed => None,
    }
}

/// The result of a probe batch.  Any failed spawn fails the whole batch as a
/// pinning-utility failure; otherwise any capture that is not a recognized
/// label fails it as an unknown core type; otherwise the layout is built from
/// the labels in probe order.
pub open spec fn spec_finish_detection(outs: Seq<ProbeOutcome>) -> Result<
    CorePELayout,
    CoreTypeFetchError,
> {
    if exists|i: int| 0 <= i < outs.len() && outs[i] is SpawnFailed {
        Err(CoreTypeFetchError::TasksetFailure)
    } else if exists|i: int| 0 <= i < outs.len() && spec_outcome_label(outs[i]) is None {
        Err(CoreTypeFetchError::UnknownCoreType)
    } else {
        spec_build_layout(Seq::new(outs.len(), |i: int| spec_outcome_label(outs[i])->0))
    }
}

/// Reduce the ordered probe outcomes (index is the logical CPU id of the
/// probed core) to the partition layout, failing the whole batch on the first
/// probe that failed.  Partial results are never returned.
pub fn finish_detection(outcomes: Vec<ProbeOutcome>) -> (r: Result<
    CorePELayout,
    CoreTypeFetchError,
>)
    requires
        outcomes@.len() <= 255,
    ensures
        r == spec_finish_detection(outcomes@),
{
    let n = outcomes.len();
    let mut i: usize = 0;
    while i < n
        invariant
            n == outcomes@.len(),
            i <= n,
            forall|j: int| 0 <= j < i ==> !(outcomes@[j] is SpawnFailed),
        decreases n - i,
    {
        let failed = match &outcomes[i] {
            ProbeOutcome::SpawnFailed => true,
            _ => false,
        };
        if failed {
            proof {
                assert(outcomes@[i as int] is SpawnFailed);
            }
            return Err(CoreTypeFetchError::TasksetFailure);
        }
        i += 1;
    }
    let mut labels: Vec<CoreType> = Vec::new();
    let mut i: usize = 0;
    while i < n
        invariant
            n == outcomes@.len() <= 255,
            i <= n,
            labels@.len() == i,
            forall|j: int| 0 <= j < n ==> !(outcomes@[j] is SpawnFailed),
            forall|j: int| 0 <= j < i ==> spec_outcome_label(outcomes@[j]) is Some,
            forall|j: int| 0 <= j < i ==> labels@[j] == spec_outcome_label(outcomes@[j])->0,
        decreases n - i,
    {
        let parsed: Option<CoreType> = match &outcomes[i] {
            ProbeOutcome::Captured(text) => parse_captured_label(text.as_str()),
            ProbeOutcome::SpawnFailed => None,
        };
        match parsed {
            Some(ct) => {
                labels.push(ct);
            },
            None => {
                proof {
                    assert(spec_outcome_label(outcomes@[i as int]) is None);
                }
                return Err(CoreTypeFetchError::UnknownCoreType);
            },
        }
        i += 1;
    }
    let r = build_layout(labels);
    proof {
        assert(labels@ =~= Seq::new(outcomes@.len(), |j: int| spec_outcome_label(outcomes@[j])->0));
    }
    r
}

/// Two probe runs whose children report, index by index, the same spawn
/// success and the same verdict yield the same result, however the children
/// were scheduled or their output captured.
pub proof fn lemma_strategies_agree(a: Seq<ProbeOutcome>, b: Seq<ProbeOutcome>)
    requires
        a.len() == b.len(),
        forall|i: int| 0 <= i < a.len() ==> ((a[i] is SpawnFailed) <==> (b[i] is SpawnFailed)),
        forall|i: int| 0 <= i < a.len() ==> spec_outcome_label(a[i]) == spec_outcome_label(b[i]),
    ensures
        spec_finish_detection(a) == spec_finish_detection(b),
{
    if exists|i: int| 0 <= i < a.len() && a[i] is SpawnFailed {
        let i = choose|i: int| 0 <= i < a.len() && a[i] is SpawnFailed;
        assert(b[i] is SpawnFailed);
    } else if exists|i: int| 0 <= i < b.len() && b[i] is SpawnFailed {
        let i = choose|i: int| 0 <= i < b.len() && b[i] is SpawnFailed;
        assert(a[i] is SpawnFailed);
    } else if exists|i: int| 0 <= i < a.len() && spec_outcome_label(a[i]) is None {
        let i = choose|i: int| 0 <= i < a.len() && spec_outcome_label(a[i]) is None;
        assert(spec_outcome_label(b[i]) is None);
    } else if exists|i: int| 0 <= i < b.len() && spec_outcome_label(b[i]) is None {
        let i = choose|i: int| 0 <= i < b.len() && spec_outcome_label(b[i]) is None;
        assert(spec_outcome_label(a[i]) is None);
    } else {
        assert(Seq::new(a.len(), |i: int| spec_outcome_label(a[i])->0) =~= Seq::new(
            b.len(),
            |i: int| spec_outcome_label(b[i])->0,
        ));
    }
}

/// What a detection request does after the hybrid feature check.
#[derive(Debug, Clone, Copy, PartialEq, Eq, Structural)]
pub enum DetectionPlan {
    /// The request ends here, with this error and no probing.
    Reject(CoreTypeFetchError),
    /// Probe this many logical CPUs, indices 0 up to the count.
    Probe(u8),
}

/// Relies on num_cpus::get for the number of logical CPUs visible to the OS;
/// its documentation promises the result is always at least 1.
#[verifier::external_body]
fn logical_cpu_count_raw() -> (n: usize)
    ensures
        1 <= n,
{
    num_cpus::get()
}

/// The number of logical CPUs visible to the OS, capped at the largest index
/// domain the layout's ranges can hold.
pub fn logical_cpu_count() -> (n: u8)
    ensures
        1 <= n,
{
    let raw = logical_cpu_count_raw();
    if raw > 255 {
        255
    } else {
        raw as u8
    }
}

/// Decide a detection request from the hybrid feature check: a CPU without
/// the feature bit is rejected before any probing; on a hybrid CPU every
/// logical CPU is to be probed, in index order.
pub fn plan_detection(hybrid: bool) -> (p: DetectionPlan)
    ensures
        !hybrid ==> p == DetectionPlan::Reject(CoreTypeFetchError::NotHybridCPU),
        hybrid ==> p is Probe && 1 <= p->Probe_0,
{
    if !hybrid {
        DetectionPlan::Reject(CoreTypeFetchError::NotHybridCPU)
    } else {
        DetectionPlan::Probe(logical_cpu_count())
    }
}

} // verus!
