//! The pipeline orchestrator's decision logic: given a source and a target
//! format descriptor, compute the ordered sequence of buffer-rewriting
//! stages that takes the one encoding to the other.
//!
//! The stage order is fixed and standards-mandated: normalize-down,
//! linearize, re-space, re-range, re-curve, normalize-up. Each stage is
//! emitted only when its own axis calls for work, independently of the
//! other axes.

use vstd::prelude::*;

use crate::format::ColorDepth;
use crate::format::ColorSpace;
use crate::format::DynamicRange;
use crate::format::ImageFormat;
use crate::format::NormFormat;
use crate::format::SignalStatus;

verus! {

/// One in-place rewrite of a sample buffer. The payload of each variant
/// names the encoding the stage works against, so an executor needs no
/// context beyond the stage itself.
#[derive(PartialEq, Eq, Structural, Copy, Clone, Debug)]
pub enum Stage {
    /// Divide every sample by the integer scale of the given depth.
    Normalize(ColorDepth),
    /// Apply the given curve's EOTF (inverse OETF for HLG) to every sample.
    Linearize(SignalStatus),
    /// Apply the 3x3 matrix taking the first space to the second, per pixel.
    ConvertSpace(ColorSpace, ColorSpace),
    /// Apply the perceptual tone-mapping operator taking the first dynamic
    /// range to the second, per pixel.
    MapRange(DynamicRange, DynamicRange),
    /// Apply the given curve's OETF (inverse EOTF for PQ) to every sample.
    Reencode(SignalStatus),
    /// Multiply every sample by the integer scale of the given depth.
    Denormalize(ColorDepth),
}

/// A requested transition with no defined transform. With the two color
/// spaces and two dynamic ranges defined today every transition is
/// supported, so `convert_plan` never returns this; the variant keeps the
/// closed set of supported transitions a typed, recoverable error rather
/// than a process abort should an axis ever grow.
#[derive(PartialEq, Eq, Structural, Copy, Clone, Debug)]
pub enum ConvertError {
    UnsupportedConversion { from: ImageFormat, to: ImageFormat },
}

/// Stage that brings non-normalized samples into the unit range.
pub open spec fn normalize_stages(src: ImageFormat) -> Seq<Stage> {
    if src.norm == NormFormat::NonNorm {
        seq![Stage::Normalize(src.color_depth)]
    } else {
        Seq::<Stage>::empty()
    }
}

/// Stage that strips the source's transfer curve, if one is applied.
pub open spec fn linearize_stages(src: ImageFormat) -> Seq<Stage> {
    if src.signal_status != SignalStatus::Linear {
        seq![Stage::Linearize(src.signal_status)]
    } else {
        Seq::<Stage>::empty()
    }
}

/// Stage that moves between RGB primaries, if they differ.
pub open spec fn space_stages(src: ImageFormat, tgt: ImageFormat) -> Seq<Stage> {
    if src.color_space != tgt.color_space {
        seq![Stage::ConvertSpace(src.color_space, tgt.color_space)]
    } else {
        Seq::<Stage>::empty()
    }
}

/// Stage that tone-maps between dynamic ranges, if they differ.
pub open spec fn range_stages(src: ImageFormat, tgt: ImageFormat) -> Seq<Stage> {
    if src.dynamic_range != tgt.dynamic_range {
        seq![Stage::MapRange(src.dynamic_range, tgt.dynamic_range)]
    } else {
        Seq::<Stage>::empty()
    }
}

/// Stage that applies the target's transfer curve, if it has one.
pub open spec fn reencode_stages(tgt: ImageFormat) -> Seq<Stage> {
    if tgt.signal_status != SignalStatus::Linear {
        seq![Stage::Reencode(tgt.signal_status)]
    } else {
        Seq::<Stage>::empty()
    }
}

/// Stage that scales unit-range samples up to the target's integer range.
pub open spec fn denormalize_stages(tgt: ImageFormat) -> Seq<Stage> {
    if tgt.norm == NormFormat::NonNorm {
        seq![Stage::Denormalize(tgt.color_depth)]
    } else {
        Seq::<Stage>::empty()
    }
}

/// The full plan, in the mandated order.
pub open spec fn plan_spec(src: ImageFormat, tgt: ImageFormat) -> Seq<Stage> {
    normalize_stages(src) + linearize_stages(src) + space_stages(src, tgt) + range_stages(
        src,
        tgt,
    ) + reencode_stages(tgt) + denormalize_stages(tgt)
}

/// How a stage rewrites the descriptor of the buffer it runs on: the one
/// axis the stage works on changes, every other axis is untouched.
pub open spec fn apply_stage_spec(fmt: ImageFormat, s: Stage) -> ImageFormat {
    match s {
        Stage::Normalize(_) => ImageFormat { norm: NormFormat::Norm, ..fmt },
        Stage::Linearize(_) => ImageFormat { signal_status: SignalStatus::Linear, ..fmt },
        Stage::ConvertSpace(_, to) => ImageFormat { color_space: to, ..fmt },
        Stage::MapRange(_, to) => ImageFormat { dynamic_range: to, ..fmt },
        Stage::Reencode(curve) => ImageFormat { signal_status: curve, ..fmt },
        Stage::Denormalize(d) => ImageFormat { norm: NormFormat::NonNorm, color_depth: d, ..fmt },
    }
}

/// The descriptor after a whole sequence of stages has run.
pub open spec fn run_plan_spec(fmt: ImageFormat, stages: Seq<Stage>) -> ImageFormat
    decreases stages.len(),
{
    if stages.len() == 0 {
        fmt
    } else {
        run_plan_spec(apply_stage_spec(fmt, stages.first()), stages.drop_first())
    }
}

/// A stage is applicable on a buffer described by `fmt` during a
/// conversion aimed at `tgt` when its payload names exactly the encoding
/// the buffer currently has (or, for the target-directed stages, the
/// encoding the target asks for) and the stage is not a no-op.
pub open spec fn stage_applies(fmt: ImageFormat, tgt: ImageFormat, s: Stage) -> bool {
    match s {
        Stage::Normalize(d) => fmt.norm == NormFormat::NonNorm && d == fmt.color_depth,
        Stage::Linearize(curve) => curve == fmt.signal_status && curve != SignalStatus::Linear,
        Stage::ConvertSpace(a, b) => a == fmt.color_space && b == tgt.color_space && a != b,
        Stage::MapRange(a, b) => a == fmt.dynamic_range && b == tgt.dynamic_range && a != b,
        Stage::Reencode(curve) => fmt.signal_status == SignalStatus::Linear && curve
            == tgt.signal_status && curve != SignalStatus::Linear,
        Stage::Denormalize(d) => fmt.norm == NormFormat::Norm && tgt.norm == NormFormat::NonNorm
            && d == tgt.color_depth,
    }
}

/// Every stage of the sequence is applicable at the moment it runs.
pub open spec fn plan_ok(fmt: ImageFormat, tgt: ImageFormat, stages: Seq<Stage>) -> bool
    decreases stages.len(),
{
    if stages.len() == 0 {
        true
    } else {
        stage_applies(fmt, tgt, stages.first()) && plan_ok(
            apply_stage_spec(fmt, stages.first()),
            tgt,
            stages.drop_first(),
        )
    }
}

/// The stage that undoes a given stage, up to floating-point tolerance of
/// the underlying numeric operators.
pub open spec fn stage_inverse(s: Stage) -> Stage {
    match s {
        Stage::Normalize(d) => Stage::Denormalize(d),
        Stage::Denormalize(d) => Stage::Normalize(d),
        Stage::Linearize(curve) => Stage::Reencode(curve),
        Stage::Reencode(curve) => Stage::Linearize(curve),
        Stage::ConvertSpace(a, b) => Stage::ConvertSpace(b, a),
        Stage::MapRange(a, b) => Stage::MapRange(b, a),
    }
}

/// Computes the conversion plan from `src` to `tgt`.
///
/// Every transition between the defined color spaces and dynamic ranges is
/// supported, so the result is always `Ok`; the error branch exists for
/// the day an axis gains a variant with no defined transform.
#[verifier::rlimit(60)]
pub fn convert_plan(src: &ImageFormat, tgt: &ImageFormat) -> (r: Result<Vec<Stage>, ConvertError>)
    ensures
        r is Ok,
        r matches Ok(p) ==> p@ == plan_spec(*src, *tgt),
{
    let mut stages: Vec<Stage> = Vec::new();

    if src.norm == NormFormat::NonNorm {
        stages.push(Stage::Normalize(src.color_depth));
    }
    proof {
        assert(stages@ =~= normalize_stages(*src));
    }
    if src.signal_status != SignalStatus::Linear {
        stages.push(Stage::Linearize(src.signal_status));
    }
    proof {
        assert(stages@ =~= normalize_stages(*src) + linearize_stages(*src));
    }
    if src.color_space != tgt.color_space {
        match (src.color_space, tgt.color_space) {
            (ColorSpace::Rec2020, ColorSpace::Rec709) => {
                stages.push(Stage::ConvertSpace(ColorSpace::Rec2020, ColorSpace::Rec709));
            },
            (ColorSpace::Rec709, ColorSpace::Rec2020) => {
                stages.push(Stage::ConvertSpace(ColorSpace::Rec709, ColorSpace::Rec2020));
            },
            _ => {
                return Err(ConvertError::UnsupportedConversion { from: *src, to: *tgt });
            },
        }
    }
    proof {
        assert(stages@ =~= normalize_stages(*src) + linearize_stages(*src) + space_stages(
            *src,
            *tgt,
        ));
    }
    if src.dynamic_range != tgt.dynamic_range {
        match (src.dynamic_range, tgt.dynamic_range) {
            (DynamicRange::HDR, DynamicRange::SDR) => {
                stages.push(Stage::MapRange(DynamicRange::HDR, DynamicRange::SDR));
            },
            (DynamicRange::SDR, DynamicRange::HDR) => {
                stages.push(Stage::MapRange(DynamicRange::SDR, DynamicRange::HDR));
            },
            _ => {
                return Err(ConvertError::UnsupportedConversion { from: *src, to: *tgt });
            },
        }
    }
    proof {
        assert(stages@ =~= normalize_stages(*src) + linearize_stages(*src) + space_stages(
            *src,
            *tgt,
        ) + range_stages(*src, *tgt));
    }
    if tgt.signal_status != SignalStatus::Linear {
        stages.push(Stage::Reencode(tgt.signal_status));
    }
    proof {
        assert(stages@ =~= normalize_stages(*src) + linearize_stages(*src) + space_stages(
            *src,
            *tgt,
        ) + range_stages(*src, *tgt) + reencode_stages(*tgt));
    }
    if tgt.norm == NormFormat::NonNorm {
        stages.push(Stage::Denormalize(tgt.color_depth));
    }

    proof {
        assert(stages@ =~= plan_spec(*src, *tgt));
    }
    Ok(stages)
}

/// Running a concatenation of stage sequences is running the first
/// sequence and then the second.
pub proof fn lemma_run_plan_concat(fmt: ImageFormat, a: Seq<Stage>, b: Seq<Stage>)
    ensures
        run_plan_spec(fmt, a + b) == run_plan_spec(run_plan_spec(fmt, a), b),
    decreases a.len(),
{
    if a.len() == 0 {
        assert(a + b =~= b);
    } else {
        assert((a + b).first() == a.first());
        assert((a + b).drop_first() =~= a.drop_first() + b);
        lemma_run_plan_concat(apply_stage_spec(fmt, a.first()), a.drop_first(), b);
    }
}

/// A single stage runs as `apply_stage_spec` says.
pub proof fn lemma_run_plan_one(fmt: ImageFormat, s: Stage)
    ensures
        run_plan_spec(fmt, seq![s]) == apply_stage_spec(fmt, s),
{
    reveal_with_fuel(run_plan_spec, 2);
    assert(seq![s].drop_first() =~= Seq::<Stage>::empty());
}

/// A concatenation is applicable stage by stage exactly when the first
/// part is and the second part is, starting from where the first left off.
pub proof fn lemma_plan_ok_concat(fmt: ImageFormat, tgt: ImageFormat, a: Seq<Stage>, b: Seq<Stage>)
    ensures
        plan_ok(fmt, tgt, a + b) <==> (plan_ok(fmt, tgt, a) && plan_ok(
            run_plan_spec(fmt, a),
            tgt,
            b,
        )),
    decreases a.len(),
{
    if a.len() == 0 {
        assert(a + b =~= b);
    } else {
        assert((a + b).first() == a.first());
        assert((a + b).drop_first() =~= a.drop_first() + b);
        lemma_plan_ok_concat(apply_stage_spec(fmt, a.first()), tgt, a.drop_first(), b);
    }
}

/// The descriptor each planned stage starts from, written out step by
/// step: the plan's six slots leave behind, in order, a normalized, a
/// linearized, a re-spaced, a re-ranged, a re-curved and a re-scaled
/// descriptor, whether or not the slot emitted a stage.
pub proof fn lemma_plan_steps(src: ImageFormat, tgt: ImageFormat)
    ensures
        run_plan_spec(src, normalize_stages(src)) == (ImageFormat {
            norm: NormFormat::Norm,
            ..src
        }),
        run_plan_spec(src, normalize_stages(src) + linearize_stages(src)) == (ImageFormat {
            norm: NormFormat::Norm,
            signal_status: SignalStatus::Linear,
            ..src
        }),
        run_plan_spec(
            src,
            normalize_stages(src) + linearize_stages(src) + space_stages(src, tgt),
        ) == (ImageFormat {
            norm: NormFormat::Norm,
            signal_status: SignalStatus::Linear,
            color_space: tgt.color_space,
            ..src
        }),
        run_plan_spec(
            src,
            normalize_stages(src) + linearize_stages(src) + space_stages(src, tgt) + range_stages(
                src,
                tgt,
            ),
        ) == (ImageFormat {
            norm: NormFormat::Norm,
            signal_status: SignalStatus::Linear,
            color_space: tgt.color_space,
            dynamic_range: tgt.dynamic_range,
            ..src
        }),
        run_plan_spec(
            src,
            normalize_stages(src) + linearize_stages(src) + space_stages(src, tgt) + range_stages(
                src,
                tgt,
            ) + reencode_stages(tgt),
        ) == (ImageFormat {
            norm: NormFormat::Norm,
            signal_status: tgt.signal_status,
            color_space: tgt.color_space,
            dynamic_range: tgt.dynamic_range,
            ..src
        }),
{
    let p1 = normalize_stages(src);
    let p2 = linearize_stages(src);
    let p3 = space_stages(src, tgt);
    let p4 = range_stages(src, tgt);
    let p5 = reencode_stages(tgt);
    if src.norm == NormFormat::NonNorm {
        lemma_run_plan_one(src, Stage::Normalize(src.color_depth));
    }
    let f1 = run_plan_spec(src, p1);
    assert(f1 == (ImageFormat { norm: NormFormat::Norm, ..src }));
    lemma_run_plan_concat(src, p1, p2);
    if src.signal_status != SignalStatus::Linear {
        lemma_run_plan_one(f1, Stage::Linearize(src.signal_status));
    }
    let f2 = run_plan_spec(f1, p2);
    assert(f2 == (ImageFormat { norm: NormFormat::Norm, signal_status: SignalStatus::Linear, ..src }));
    lemma_run_plan_concat(src, p1 + p2, p3);
    if src.color_space != tgt.color_space {
        lemma_run_plan_one(f2, Stage::ConvertSpace(src.color_space, tgt.color_space));
    }
    let f3 = run_plan_spec(f2, p3);
    assert(f3 == (ImageFormat {
        norm: NormFormat::Norm,
        signal_status: SignalStatus::Linear,
        color_space: tgt.color_space,
        ..src
    }));
    lemma_run_plan_concat(src, p1 + p2 + p3, p4);
    if src.dynamic_range != tgt.dynamic_range {
        lemma_run_plan_one(f3, Stage::MapRange(src.dynamic_range, tgt.dynamic_range));
    }
    let f4 = run_plan_spec(f3, p4);
    assert(f4 == (ImageFormat {
        norm: NormFormat::Norm,
        signal_status: SignalStatus::Linear,
        color_space: tgt.color_space,
        dynamic_range: tgt.dynamic_range,
        ..src
    }));
    lemma_run_plan_concat(src, p1 + p2 + p3 + p4, p5);
    if tgt.signal_status != SignalStatus::Linear {
        lemma_run_plan_one(f4, Stage::Reencode(tgt.signal_status));
    }
    let f5 = run_plan_spec(f4, p5);
    assert(f5 == (ImageFormat {
        norm: NormFormat::Norm,
        signal_status: tgt.signal_status,
        color_space: tgt.color_space,
        dynamic_range: tgt.dynamic_range,
        ..src
    }));
}

/// Law: running the planned stages over the source descriptor yields the
/// target descriptor on every axis the plan is responsible for. The color
/// depth is pinned by the target only while the target is non-normalized,
/// the one state in which depth describes the buffer.
pub proof fn lemma_plan_reaches_target(src: ImageFormat, tgt: ImageFormat)
    ensures
        ({
            let end = run_plan_spec(src, plan_spec(src, tgt));
            &&& end.dynamic_range == tgt.dynamic_range
            &&& end.norm == tgt.norm
            &&& end.signal_status == tgt.signal_status
            &&& end.color_space == tgt.color_space
            &&& end.color_format == tgt.color_format
            &&& tgt.norm == NormFormat::NonNorm ==> end.color_depth == tgt.color_depth
            &&& tgt.norm == NormFormat::Norm ==> end.color_depth == src.color_depth
        }),
{
    lemma_plan_steps(src, tgt);
    let upto5 = normalize_stages(src) + linearize_stages(src) + space_stages(src, tgt)
        + range_stages(src, tgt) + reencode_stages(tgt);
    let f5 = run_plan_spec(src, upto5);
    lemma_run_plan_concat(src, upto5, denormalize_stages(tgt));
    if tgt.norm == NormFormat::NonNorm {
        lemma_run_plan_one(f5, Stage::Denormalize(tgt.color_depth));
    }
}

/// Law: every stage the plan emits is applicable at the moment it runs:
/// its payload names exactly the encoding the buffer then has (or the one
/// the target asks for), and it is never a no-op. In particular the
/// descriptor tracked alongside the buffer is accurate at every step.
pub proof fn lemma_plan_applies(src: ImageFormat, tgt: ImageFormat)
    ensures
        plan_ok(src, tgt, plan_spec(src, tgt)),
{
    lemma_plan_steps(src, tgt);
    let p1 = normalize_stages(src);
    let p2 = linearize_stages(src);
    let p3 = space_stages(src, tgt);
    let p4 = range_stages(src, tgt);
    let p5 = reencode_stages(tgt);
    let p6 = denormalize_stages(tgt);
    let f1 = run_plan_spec(src, p1);
    let f2 = run_plan_spec(src, p1 + p2);
    let f3 = run_plan_spec(src, p1 + p2 + p3);
    let f4 = run_plan_spec(src, p1 + p2 + p3 + p4);
    let f5 = run_plan_spec(src, p1 + p2 + p3 + p4 + p5);
    lemma_plan_ok_concat(src, tgt, p1 + p2 + p3 + p4 + p5, p6);
    lemma_plan_ok_concat(src, tgt, p1 + p2 + p3 + p4, p5);
    lemma_plan_ok_concat(src, tgt, p1 + p2 + p3, p4);
    lemma_plan_ok_concat(src, tgt, p1 + p2, p3);
    lemma_plan_ok_concat(src, tgt, p1, p2);
    lemma_run_plan_concat(src, p1, p2);
    lemma_run_plan_concat(src, p1 + p2, p3);
    lemma_run_plan_concat(src, p1 + p2 + p3, p4);
    lemma_run_plan_concat(src, p1 + p2 + p3 + p4, p5);
    assert(plan_ok(src, tgt, p1)) by {
        if src.norm == NormFormat::NonNorm {
            lemma_plan_ok_one(src, tgt, Stage::Normalize(src.color_depth));
        }
    }
    assert(plan_ok(f1, tgt, p2)) by {
        if src.signal_status != SignalStatus::Linear {
            lemma_plan_ok_one(f1, tgt, Stage::Linearize(src.signal_status));
        }
    }
    assert(plan_ok(f2, tgt, p3)) by {
        if src.color_space != tgt.color_space {
            lemma_plan_ok_one(f2, tgt, Stage::ConvertSpace(src.color_space, tgt.color_space));
        }
    }
    assert(plan_ok(f3, tgt, p4)) by {
        if src.dynamic_range != tgt.dynamic_range {
            lemma_plan_ok_one(f3, tgt, Stage::MapRange(src.dynamic_range, tgt.dynamic_range));
        }
    }
    assert(plan_ok(f4, tgt, p5)) by {
        if tgt.signal_status != SignalStatus::Linear {
            lemma_plan_ok_one(f4, tgt, Stage::Reencode(tgt.signal_status));
        }
    }
    assert(plan_ok(f5, tgt, p6)) by {
        if tgt.norm == NormFormat::NonNorm {
            lemma_plan_ok_one(f5, tgt, Stage::Denormalize(tgt.color_depth));
        }
    }
}

/// Law: an applicable stage is never a no-op on the descriptor — together
/// with `lemma_plan_applies`, the plan only ever schedules work on an axis
/// that differs.
pub proof fn lemma_applicable_stage_changes(fmt: ImageFormat, tgt: ImageFormat, s: Stage)
    requires
        stage_applies(fmt, tgt, s),
    ensures
        apply_stage_spec(fmt, s) != fmt,
{
}

/// A single stage is an applicable plan exactly when `stage_applies` holds
/// of it.
pub proof fn lemma_plan_ok_one(fmt: ImageFormat, tgt: ImageFormat, s: Stage)
    ensures
        plan_ok(fmt, tgt, seq![s]) <==> stage_applies(fmt, tgt, s),
{
    reveal_with_fuel(plan_ok, 2);
    assert(seq![s].drop_first() =~= Seq::<Stage>::empty());
}

/// Law: converting a format to itself leaves the descriptor exactly as it
/// was; and when the format is already linear and normalized the plan is
/// empty, so the buffer too is untouched, exactly.
pub proof fn lemma_self_plan_descriptor(f: ImageFormat)
    ensures
        run_plan_spec(f, plan_spec(f, f)) == f,
        f.norm == NormFormat::Norm && f.signal_status == SignalStatus::Linear ==> plan_spec(f, f)
            =~= Seq::<Stage>::empty(),
{
    lemma_plan_reaches_target(f, f);
}

/// The stage sequence that undoes a stage sequence: each stage inverted,
/// in reverse order.
pub open spec fn undo_plan(p: Seq<Stage>) -> Seq<Stage> {
    Seq::new(p.len(), |i: int| stage_inverse(p[p.len() - 1 - i]))
}

/// Undoing a concatenation undoes the second part, then the first.
pub proof fn lemma_undo_plan_add(a: Seq<Stage>, b: Seq<Stage>)
    ensures
        undo_plan(a + b) =~= undo_plan(b) + undo_plan(a),
{
}

/// Law: the plan from the target back to the source is the plan there
/// undone — the same stages, each inverted, in reverse order — whenever at
/// most one of the color-space and dynamic-range axes differs (when both
/// differ the two plans order those two stages oppositely, each plan
/// re-spacing before re-ranging). Buffer recovery along such a pair is
/// then approximate exactly to the degree each operator pair inverts,
/// a property of the floating-point operators outside this crate.
#[verifier::rlimit(100)]
pub proof fn lemma_plan_round_trip(src: ImageFormat, tgt: ImageFormat)
    requires
        src.color_space == tgt.color_space || src.dynamic_range == tgt.dynamic_range,
    ensures
        plan_spec(tgt, src) =~= undo_plan(plan_spec(src, tgt)),
{
    let p1 = normalize_stages(src);
    let p2 = linearize_stages(src);
    let p3 = space_stages(src, tgt);
    let p4 = range_stages(src, tgt);
    let p5 = reencode_stages(tgt);
    let p6 = denormalize_stages(tgt);
    lemma_undo_plan_add(p1 + p2 + p3 + p4 + p5, p6);
    lemma_undo_plan_add(p1 + p2 + p3 + p4, p5);
    lemma_undo_plan_add(p1 + p2 + p3, p4);
    lemma_undo_plan_add(p1 + p2, p3);
    lemma_undo_plan_add(p1, p2);
    assert(undo_plan(p6) =~= normalize_stages(tgt));
    assert(undo_plan(p5) =~= linearize_stages(tgt));
    assert(undo_plan(p4) =~= range_stages(tgt, src));
    assert(undo_plan(p3) =~= space_stages(tgt, src));
    assert(undo_plan(p2) =~= reencode_stages(src));
    assert(undo_plan(p1) =~= denormalize_stages(src));
    assert(range_stages(tgt, src) + space_stages(tgt, src) =~= space_stages(tgt, src)
        + range_stages(tgt, src));
    assert(undo_plan(plan_spec(src, tgt)) =~= normalize_stages(tgt) + linearize_stages(tgt)
        + space_stages(tgt, src) + range_stages(tgt, src) + reencode_stages(src)
        + denormalize_stages(src));
}

/// Law: when source and target formats are equal the plan does no
/// color-space and no dynamic-range work, has evenly many stages, and is a
/// palindrome of inverses: the stage `i` places from the end undoes the
/// stage `i` places from the start. The buffer is therefore recovered up
/// to the floating-point tolerance of each operator pair.
pub proof fn lemma_self_plan_involutive(f: ImageFormat)
    ensures
        ({
            let p = plan_spec(f, f);
            &&& forall|i: int|
                0 <= i < p.len() ==> !(#[trigger] p[i] is ConvertSpace) && !(p[i] is MapRange)
            &&& p.len() % 2 == 0
            &&& forall|i: int|
                0 <= i < p.len() ==> p[p.len() - 1 - i] == stage_inverse(#[trigger] p[i])
        }),
{
    let p = plan_spec(f, f);
    if f.norm == NormFormat::NonNorm && f.signal_status != SignalStatus::Linear {
        assert(p =~= seq![
            Stage::Normalize(f.color_depth),
            Stage::Linearize(f.signal_status),
            Stage::Reencode(f.signal_status),
            Stage::Denormalize(f.color_depth),
        ]);
    } else if f.norm == NormFormat::NonNorm {
        assert(p =~= seq![Stage::Normalize(f.color_depth), Stage::Denormalize(f.color_depth)]);
    } else if f.signal_status != SignalStatus::Linear {
        assert(p =~= seq![Stage::Linearize(f.signal_status), Stage::Reencode(f.signal_status)]);
    } else {
        assert(p =~= Seq::<Stage>::empty());
    }
}

} // verus!
