//! What the bounds on commands and on metainfo guarantee of everything that
//! passes them.

use vstd::prelude::*;

use crate::limits::EngineLimits;
use crate::metainfo::{MetaKind, SafeRelPath, TorrentMeta};
use crate::problem::first_problem;
use crate::storage_plan::{PlanIssue, PlanPath, StoragePlan, StoragePlanStep};
use crate::text::{ascii_lower, byte_len, lowered};
use crate::validation::{
    canonical_hash, capped, files_length, issue_path, issues_paths, meta_trackers, path_bytes,
    pieces_covering, plan_path_problem, plan_paths, relative_path_bytes, span_check, span_problem,
    spans_length, spans_path_bytes, spans_problem, step_paths, steps_paths, text_list_problem,
    tier_urls, torrent_meta_problem, total_bytes, FileSpan, PathUse,
};

verus! {

/// A canonical info hash is its own canonical form.
pub proof fn law_canonical_form_is_stable(info_hash: Seq<char>)
    ensures
        canonical_hash(canonical_hash(info_hash)) == canonical_hash(info_hash),
{
    let once = lowered(info_hash);
    assert(lowered(once) =~= once) by {
        assert forall|i: int| 0 <= i < once.len() implies #[trigger] lowered(once)[i]
            == once[i] by {
            assert(once[i] == ascii_lower(info_hash[i]));
        }
    }
}

/// A list of texts passes exactly when each text and all of them together are
/// in bounds.
pub proof fn law_text_lists_are_bounded(
    values: Seq<String>,
    maximum: nat,
    aggregate_maximum: nat,
    item_label: Seq<char>,
    kind: Seq<char>,
)
    ensures
        text_list_problem(values, maximum, aggregate_maximum, item_label, kind) is None <==> {
            &&& forall|i: int| 0 <= i < values.len() ==> byte_len((#[trigger] values[i])@) <= maximum
            &&& values.len() > 0 ==> capped(total_bytes(values)) <= aggregate_maximum
        },
    decreases values.len(),
{
    if values.len() > 0 {
        let before = values.drop_last();
        law_text_lists_are_bounded(before, maximum, aggregate_maximum, item_label, kind);
        assert forall|i: int| 0 <= i < before.len() implies #[trigger] before[i] == values[i] by {}
        if forall|i: int| 0 <= i < values.len() ==> byte_len((#[trigger] values[i])@) <= maximum {
            assert forall|i: int| 0 <= i < before.len() implies byte_len((#[trigger] before[i])@)
                <= maximum by {
                assert(before[i] == values[i]);
            }
        }
        if forall|i: int| 0 <= i < before.len() ==> byte_len((#[trigger] before[i])@) <= maximum {
            assert forall|i: int| 0 <= i < before.len() implies byte_len((#[trigger] values[i])@)
                <= maximum by {
                assert(before[i] == values[i]);
            }
        }
    }
}

/// The files of a torrent that passes are numbered in order and lie one after
/// another without a gap.
pub proof fn law_accepted_files_are_contiguous(
    limits: EngineLimits,
    files: Seq<FileSpan>,
    i: int,
)
    requires
        spans_problem(limits, files) is None,
        0 <= i < files.len(),
    ensures
        files[i].index == i,
        files[i].offset == spans_length(files.take(i)),
        i + 1 < files.len() ==> files[i + 1].offset == files[i].offset + files[i].length,
        files[i].path_bytes <= limits.meta_path_bytes,
        files.len() <= limits.meta_files,
        spans_length(files) <= u64::MAX,
    decreases files.len(),
{
    let before = files.drop_last();
    assert(first_problem(before, span_check(limits)) is None);
    assert(span_check(limits)(before, files.last()) is None);
    if i < before.len() {
        law_accepted_files_are_contiguous(limits, before, i);
        assert(before.take(i) =~= files.take(i));
        if i + 1 == before.len() {
            assert(before.drop_last() =~= files.take(i));
            assert(before.last() == files[i]);
        }
    } else {
        assert(files.take(i) =~= before);
    }
}

/// The piece hashes of a torrent with SHA-1 pieces that passes cover its payload
/// exactly: one piece fewer would not hold it, and the last is not empty.
pub proof fn law_piece_hashes_cover_the_payload(limits: EngineLimits, meta: TorrentMeta)
    requires
        torrent_meta_problem(limits, meta) is None,
    ensures
        match meta.kind {
            MetaKind::V1(v1) => {
                let total = files_length(v1.fields);
                let length = v1.fields.piece_length;
                &&& total > 0
                &&& length > 0
                &&& (v1.pieces@.len() - 1) * length < total <= v1.pieces@.len() * length
                &&& v1.pieces@.len() <= limits.meta_pieces
            },
            MetaKind::Hybrid { v1, v2, layout_error } => {
                let total = files_length(v1.fields);
                let length = v1.fields.piece_length;
                &&& layout_error is None
                &&& total > 0
                &&& length > 0
                &&& (v1.pieces@.len() - 1) * length < total <= v1.pieces@.len() * length
                &&& v1.pieces@.len() <= limits.meta_pieces
            },
            MetaKind::V2(v2) => v2.fields.piece_length > 0 && v2.piece_count <= limits.meta_pieces,
        },
{
    match meta.kind {
        MetaKind::V1(v1) => {
            lemma_covering(files_length(v1.fields), v1.fields.piece_length as nat);
        },
        MetaKind::Hybrid { v1, v2, layout_error } => {
            lemma_covering(files_length(v1.fields), v1.fields.piece_length as nat);
        },
        MetaKind::V2(_) => {},
    }
}

proof fn lemma_covering(total: nat, length: nat)
    requires
        total > 0,
        length > 0,
    ensures
        (pieces_covering(total, length) - 1) * length < total,
        total <= pieces_covering(total, length) * length,
{
    let n = pieces_covering(total, length) as int;
    let padded = total + length - 1;
    assert(n == padded / length as int);
    vstd::arithmetic::div_mod::lemma_fundamental_div_mod(padded, length as int);
    vstd::arithmetic::div_mod::lemma_mod_bound(padded, length as int);
    assert((n - 1) * length == length as int * n - length) by (nonlinear_arith);
    assert(n * length == length as int * n) by (nonlinear_arith);
}

/// Every path of a plan is judged: the source and the destination of each step and of
/// each rollback step, and those that its issues name, in their order.
pub proof fn law_every_path_of_a_plan_is_judged(
    steps: Seq<StoragePlanStep>,
    step: StoragePlanStep,
    issues: Seq<PlanIssue>,
    issue: PlanIssue,
    plan: StoragePlan,
)
    ensures
        steps_paths(Seq::<StoragePlanStep>::empty()).len() == 0,
        issues_paths(Seq::<PlanIssue>::empty()).len() == 0,
        steps_paths(steps).is_prefix_of(steps_paths(steps.push(step))),
        issues_paths(issues).is_prefix_of(issues_paths(issues.push(issue))),
        ({
            let more = steps_paths(steps.push(step)).skip(steps_paths(steps).len() as int);
            let n = (if step.source is Some {
                1int
            } else {
                0
            }) + (if step.destination is Some {
                1int
            } else {
                0
            });
            &&& more.len() == n
            &&& step.source matches Some(path) ==> more[0].path == path
            &&& step.destination matches Some(path) ==> more[n - 1].path == path
        }),
        ({
            let more = issues_paths(issues.push(issue)).skip(issues_paths(issues).len() as int);
            match issue {
                PlanIssue::SourceMissing(path) => more.len() == 1 && more[0].path == path,
                PlanIssue::DestinationExists(path) => more.len() == 1 && more[0].path == path,
                _ => more.len() == 0,
            }
        }),
        plan_paths(plan) == issues_paths(plan.issues@) + steps_paths(plan.steps@) + steps_paths(
            plan.rollback_steps@,
        ),
{
    assert(steps.push(step).drop_last() =~= steps);
    assert(issues.push(issue).drop_last() =~= issues);
    let a = steps_paths(steps);
    let b = steps_paths(steps.push(step));
    assert(b.subrange(0, a.len() as int) =~= a);
    assert(b.skip(a.len() as int) =~= step_paths(step));
    let c = issues_paths(issues);
    let d = issues_paths(issues.push(issue));
    assert(d.subrange(0, c.len() as int) =~= c);
    assert(d.skip(c.len() as int) =~= issue_path(issue));
}

/// A file is taken exactly where there are not too many files, it has the next number,
/// begins where the one before ends, and its length and its path are in bounds.
pub proof fn law_files_follow_one_another(
    limits: EngineLimits,
    before: Seq<FileSpan>,
    file: FileSpan,
)
    ensures
        span_problem(limits, before, file) is None <==> {
            &&& before.len() < limits.meta_files
            &&& file.index == before.len()
            &&& file.offset == spans_length(before)
            &&& file.offset + file.length <= u64::MAX
            &&& file.path_bytes <= limits.meta_path_bytes
            &&& capped(spans_path_bytes(before) + file.path_bytes as nat)
                <= limits.meta_path_total_bytes
        },
        spans_length(before.push(file)) == spans_length(before) + file.length,
        spans_path_bytes(before.push(file)) == spans_path_bytes(before) + file.path_bytes,
        spans_length(Seq::<FileSpan>::empty()) == 0,
        spans_path_bytes(Seq::<FileSpan>::empty()) == 0,
{
    assert(before.push(file).drop_last() =~= before);
}

/// A path is as long as its parts and the separators between them.
pub proof fn law_separators_count(path: SafeRelPath)
    requires
        total_bytes(path.components@) + path.components@.len() <= usize::MAX,
    ensures
        path.components@.len() == 0 ==> relative_path_bytes(path) == 0,
        path.components@.len() > 0 ==> relative_path_bytes(path) == total_bytes(path.components@)
            + path.components@.len() - 1,
{
}

/// A path of a plan is taken exactly where it is text, and neither it nor all of them
/// together are too long.
pub proof fn law_plan_paths_are_bounded(
    limits: EngineLimits,
    before: nat,
    path: PlanPath,
    kind: Seq<char>,
    uses: Seq<PathUse>,
    text: String,
)
    ensures
        plan_path_problem(limits, before, path, kind) is None <==> (path matches PlanPath::Utf8(t)
            && byte_len(t@) <= limits.storage_plan_path_bytes && capped(before + byte_len(t@))
            <= limits.storage_plan_total_path_bytes),
        path_bytes(uses.push((PathUse { path: PlanPath::Utf8(text), kind }))) == path_bytes(uses)
            + byte_len(text@),
        path_bytes(uses.push((PathUse { path: PlanPath::NotUtf8, kind }))) == path_bytes(uses),
{
    assert(uses.push(PathUse { path: PlanPath::Utf8(text), kind }).drop_last() =~= uses);
    assert(uses.push(PathUse { path: PlanPath::NotUtf8, kind }).drop_last() =~= uses);
}

/// The trackers of a file are its main one and those of its tiers, in their order.
pub proof fn law_trackers_are_listed_in_order(
    announce: String,
    tiers: Seq<Vec<String>>,
    tier: Vec<String>,
)
    ensures
        tier_urls(tiers.push(tier)) == tier_urls(tiers) + tier@,
        tier_urls(Seq::<Vec<String>>::empty()).len() == 0,
        meta_trackers(None, tiers) == tier_urls(tiers),
        meta_trackers(Some(announce), tiers).len() == 1 + tier_urls(tiers).len(),
        meta_trackers(Some(announce), tiers)[0] == announce,
        meta_trackers(Some(announce), tiers).skip(1) == tier_urls(tiers),
{
    assert(tiers.push(tier).drop_last() =~= tiers);
    assert(meta_trackers(Some(announce), tiers).skip(1) =~= tier_urls(tiers));
}

} // verus!
