//! Bounds on command arguments and on metainfo, checked before the engine acts.

use vstd::prelude::*;

use crate::limits::{EngineLimits, MAX_TORRENT_BYTES};
use crate::metainfo::{MagnetLink, MetaFields, MetaFile, MetaKind, SafeRelPath, TorrentMeta};
use crate::net::PeerAddr;
use crate::problem::{
    either, first_problem, lemma_first_problem_stays, lemma_first_problem_step, reports, CmdResult,
    Problem,
};
use crate::storage_plan::{PlanIssue, PlanPath, StoragePlan, StoragePlanStep};
use crate::text::{
    byte_len, count_text, decimal, decimal_text, join2, join3, join4, join6, lowered, trim,
    trimmed, to_ascii_lowercase,
};

verus! {

/// A sum of sizes, held at the largest `usize`.
pub open spec fn capped(n: nat) -> nat {
    if n > usize::MAX {
        usize::MAX as nat
    } else {
        n
    }
}

/// The bytes of all texts of a list.
pub open spec fn total_bytes(values: Seq<String>) -> nat
    decreases values.len(),
{
    if values.len() == 0 {
        0
    } else {
        total_bytes(values.drop_last()) + byte_len(values.last()@)
    }
}

/// One more text adds its own bytes.
pub proof fn lemma_total_bytes_step(values: Seq<String>, n: int)
    requires
        0 <= n < values.len(),
    ensures
        total_bytes(values.take(n + 1)) == total_bytes(values.take(n)) + byte_len(values[n]@),
{
    assert(values.take(n + 1).drop_last() =~= values.take(n));
}

/// The problem of a value `count` that must not exceed `maximum`.
pub open spec fn over_limit(
    count: nat,
    maximum: nat,
    before: Seq<char>,
    between: Seq<char>,
) -> Problem {
    if count > maximum {
        Some(before + decimal(count) + between + decimal(maximum))
    } else {
        None
    }
}

/// Reports `count` when it exceeds `maximum`.
fn check_limit(count: usize, maximum: usize, before: &str, between: &str) -> (r: CmdResult<()>)
    ensures
        reports(r, over_limit(count as nat, maximum as nat, before@, between@)),
{
    if count > maximum {
        let n = count_text(count);
        let m = count_text(maximum);
        return Err(join4(before, n.as_str(), between, m.as_str()));
    }
    Ok(())
}

pub open spec fn peer_command_problem(count: nat, maximum: nat, kind: Seq<char>) -> Problem {
    over_limit(count, maximum, kind + " contains "@, " addresses; maximum is "@)
}

/// A list of peer addresses holds at most `maximum` of them.
pub fn validation_validate_peer_command_len(count: usize, maximum: usize, kind: &str) -> (r:
    CmdResult<()>)
    ensures
        reports(r, peer_command_problem(count as nat, maximum as nat, kind@)),
{
    let before = join2(kind, " contains ");
    check_limit(count, maximum, before.as_str(), " addresses; maximum is ")
}

pub open spec fn item_count_problem(count: nat, maximum: nat, kind: Seq<char>) -> Problem {
    over_limit(count, maximum, kind + " contains "@, " items; maximum is "@)
}

/// A list holds at most `maximum` items.
pub fn validation_validate_command_item_len(count: usize, maximum: usize, kind: &str) -> (r:
    CmdResult<()>)
    ensures
        reports(r, item_count_problem(count as nat, maximum as nat, kind@)),
{
    let before = join2(kind, " contains ");
    check_limit(count, maximum, before.as_str(), " items; maximum is ")
}

/// A query for active peers spans a bounded number of torrents.
pub fn validation_validate_active_peer_torrent_count(limits: &EngineLimits, count: usize) -> (r:
    CmdResult<()>)
    ensures
        reports(
            r,
            over_limit(
                count as nat,
                limits.active_peer_torrents as nat,
                "active peer query spans "@,
                " torrents; maximum is "@,
            ),
        ),
{
    check_limit(
        count,
        limits.active_peer_torrents,
        "active peer query spans ",
        " torrents; maximum is ",
    )
}

/// A snapshot of active peers holds a bounded number of peers.
pub fn validation_validate_peer_snapshot_total(limits: &EngineLimits, count: usize) -> (r:
    CmdResult<()>)
    ensures
        reports(
            r,
            over_limit(
                count as nat,
                limits.peer_snapshot_items as nat,
                "active peer snapshot contains "@,
                " peers; maximum is "@,
            ),
        ),
{
    check_limit(
        count,
        limits.peer_snapshot_items,
        "active peer snapshot contains ",
        " peers; maximum is ",
    )
}

pub open spec fn byte_count_problem(bytes: nat, maximum: nat, kind: Seq<char>) -> Problem {
    over_limit(bytes, maximum, kind + " contains "@, " bytes; maximum is "@)
}

pub open spec fn label_problem(
    limits: EngineLimits,
    values: Seq<String>,
    kind: Seq<char>,
) -> Problem {
    byte_count_problem(capped(total_bytes(values)), limits.label_bytes as nat, kind)
}

/// All labels of a list together stay within the label limit.
pub fn validation_validate_label_bytes(limits: &EngineLimits, values: &[String], kind: &str) -> (r:
    CmdResult<()>)
    ensures
        reports(r, label_problem(*limits, values@, kind@)),
{
    let mut bytes: usize = 0;
    let mut i: usize = 0;
    assert(values@.take(0) =~= Seq::<String>::empty());
    while i < values.len()
        invariant
            i <= values.len(),
            bytes == capped(total_bytes(values@.take(i as int))),
        decreases values.len() - i,
    {
        proof {
            lemma_total_bytes_step(values@, i as int);
        }
        bytes = bytes.saturating_add(values[i].as_str().len());
        i = i + 1;
    }
    assert(values@.take(i as int) =~= values@);
    let before = join2(kind, " contains ");
    check_limit(bytes, limits.label_bytes, before.as_str(), " bytes; maximum is ")
}

pub open spec fn tag_list_problem(
    limits: EngineLimits,
    values: Seq<String>,
    kind: Seq<char>,
) -> Problem {
    either(
        item_count_problem(values.len(), limits.mutation_items as nat, kind),
        label_problem(limits, values, kind),
    )
}

/// A list of tags is bounded in number and in bytes.
pub fn validate_tag_list(limits: &EngineLimits, tags: &[String], kind: &str) -> (r: CmdResult<()>)
    ensures
        reports(r, tag_list_problem(*limits, tags@, kind@)),
{
    validation_validate_command_item_len(tags.len(), limits.mutation_items, kind)?;
    validation_validate_label_bytes(limits, tags, kind)
}

/// The set of all tags is bounded in number and in bytes.
pub fn validation_validate_global_tag_set(limits: &EngineLimits, tags: &[String]) -> (r: CmdResult<
    (),
>)
    ensures
        reports(r, tag_list_problem(*limits, tags@, "global tag set"@)),
{
    validate_tag_list(limits, tags, "global tag set")
}

pub open spec fn text_problem(value: Seq<char>, maximum: nat, kind: Seq<char>) -> Problem {
    byte_count_problem(byte_len(value), maximum, kind)
}

/// A text occupies at most `maximum` bytes.
pub fn validation_validate_text_bytes(value: &str, maximum: usize, kind: &str) -> (r: CmdResult<()>)
    ensures
        reports(r, text_problem(value@, maximum as nat, kind@)),
{
    let before = join2(kind, " contains ");
    check_limit(value.len(), maximum, before.as_str(), " bytes; maximum is ")
}

/// The problem of one text of a list, given the texts before it.
pub open spec fn listed_text_problem(
    before: Seq<String>,
    value: Seq<char>,
    maximum: nat,
    aggregate_maximum: nat,
    item_label: Seq<char>,
    kind: Seq<char>,
) -> Problem {
    either(
        over_limit(
            byte_len(value),
            maximum,
            item_label + decimal(before.len()) + " contains "@,
            " bytes; maximum is "@,
        ),
        byte_count_problem(
            capped(total_bytes(before) + byte_len(value)),
            aggregate_maximum,
            kind,
        ),
    )
}

pub open spec fn text_list_check(
    maximum: nat,
    aggregate_maximum: nat,
    item_label: Seq<char>,
    kind: Seq<char>,
) -> spec_fn(Seq<String>, String) -> Problem {
    |before: Seq<String>, value: String|
        listed_text_problem(before, value@, maximum, aggregate_maximum, item_label, kind)
}

pub open spec fn text_list_problem(
    values: Seq<String>,
    maximum: nat,
    aggregate_maximum: nat,
    item_label: Seq<char>,
    kind: Seq<char>,
) -> Problem {
    first_problem(values, text_list_check(maximum, aggregate_maximum, item_label, kind))
}

/// Each text of a list and all of them together are bounded; the first text
/// that breaks a bound is reported.
fn check_text_list(
    values: &[String],
    maximum: usize,
    aggregate_maximum: usize,
    item_label: &str,
    kind: &str,
) -> (r: CmdResult<()>)
    ensures
        reports(
            r,
            text_list_problem(
                values@,
                maximum as nat,
                aggregate_maximum as nat,
                item_label@,
                kind@,
            ),
        ),
{
    let ghost check = text_list_check(
        maximum as nat,
        aggregate_maximum as nat,
        item_label@,
        kind@,
    );
    let mut bytes: usize = 0;
    let mut i: usize = 0;
    assert(values@.take(0) =~= Seq::<String>::empty());
    while i < values.len()
        invariant
            i <= values.len(),
            check == text_list_check(
                maximum as nat,
                aggregate_maximum as nat,
                item_label@,
                kind@,
            ),
            bytes == capped(total_bytes(values@.take(i as int))),
            first_problem(values@.take(i as int), check) is None,
        decreases values.len() - i,
    {
        proof {
            lemma_total_bytes_step(values@, i as int);
            lemma_first_problem_step(values@, i as int, check);
        }
        let length: usize = values[i].as_str().len();
        let index = count_text(i);
        let before = join3(item_label, index.as_str(), " contains ");
        if let Err(e) = check_limit(length, maximum, before.as_str(), " bytes; maximum is ") {
            proof {
                lemma_first_problem_stays(values@, i + 1, check);
            }
            return Err(e);
        }
        bytes = bytes.saturating_add(length);
        let before = join2(kind, " contains ");
        if let Err(e) = check_limit(
            bytes,
            aggregate_maximum,
            before.as_str(),
            " bytes; maximum is ",
        ) {
            proof {
                lemma_first_problem_stays(values@, i + 1, check);
            }
            return Err(e);
        }
        i = i + 1;
    }
    assert(values@.take(i as int) =~= values@);
    Ok(())
}

/// Each text of a list and all of them together are bounded.
pub fn validation_validate_text_list_bytes(
    values: &[String],
    maximum: usize,
    aggregate_maximum: usize,
    kind: &str,
) -> (r: CmdResult<()>)
    ensures
        reports(
            r,
            text_list_problem(
                values@,
                maximum as nat,
                aggregate_maximum as nat,
                kind@ + " item at index "@,
                kind@,
            ),
        ),
{
    let label = join2(kind, " item at index ");
    check_text_list(values, maximum, aggregate_maximum, label.as_str(), kind)
}

/// One use of a path in a storage plan, with what it is called in a message.
pub struct PathUse {
    pub path: PlanPath,
    pub kind: Seq<char>,
}

/// The bytes of all paths of a list. A path that is not UTF-8 counts nothing.
pub open spec fn path_bytes(uses: Seq<PathUse>) -> nat
    decreases uses.len(),
{
    if uses.len() == 0 {
        0
    } else {
        path_bytes(uses.drop_last()) + match uses.last().path {
            PlanPath::Utf8(path) => byte_len(path@),
            PlanPath::NotUtf8 => 0,
        }
    }
}

/// The problem of one path of a plan, when the paths before it occupy `before`
/// bytes.
pub open spec fn plan_path_problem(
    limits: EngineLimits,
    before: nat,
    path: PlanPath,
    kind: Seq<char>,
) -> Problem {
    match path {
        PlanPath::NotUtf8 => Some(kind + " is not valid UTF-8"@),
        PlanPath::Utf8(text) => either(
            text_problem(text@, limits.storage_plan_path_bytes as nat, kind),
            over_limit(
                capped(before + byte_len(text@)),
                limits.storage_plan_total_path_bytes as nat,
                "storage plan paths contain "@,
                " bytes; maximum is "@,
            ),
        ),
    }
}

/// One path of a plan is UTF-8, bounded, and keeps the sum of all paths in
/// bounds. `total` holds that sum, also when it is the sum that is refused.
pub fn validation_validate_storage_plan_path(
    limits: &EngineLimits,
    path: &PlanPath,
    total: &mut usize,
    kind: &str,
) -> (r: CmdResult<()>)
    ensures
        reports(r, plan_path_problem(*limits, *old(total) as nat, *path, kind@)),
        *final(total) == match *path {
            PlanPath::Utf8(text) => if byte_len(text@) <= limits.storage_plan_path_bytes {
                capped(*old(total) as nat + byte_len(text@))
            } else {
                *old(total) as nat
            },
            PlanPath::NotUtf8 => *old(total) as nat,
        },
{
    match path {
        PlanPath::NotUtf8 => Err(join2(kind, " is not valid UTF-8")),
        PlanPath::Utf8(text) => {
            validation_validate_text_bytes(text.as_str(), limits.storage_plan_path_bytes, kind)?;
            *total = total.saturating_add(text.as_str().len());
            check_limit(
                *total,
                limits.storage_plan_total_path_bytes,
                "storage plan paths contain ",
                " bytes; maximum is ",
            )
        },
    }
}

/// The path that an issue names.
pub open spec fn issue_path(issue: PlanIssue) -> Seq<PathUse> {
    match issue {
        PlanIssue::SourceMissing(path) => seq![
            PathUse { path, kind: "storage plan issue path"@ },
        ],
        PlanIssue::DestinationExists(path) => seq![
            PathUse { path, kind: "storage plan issue path"@ },
        ],
        _ => seq![],
    }
}

/// The paths that a step names: its source, then its destination.
pub open spec fn step_paths(step: StoragePlanStep) -> Seq<PathUse> {
    optional_path(step.source, "storage plan source path"@) + optional_path(
        step.destination,
        "storage plan destination path"@,
    )
}

pub open spec fn optional_path(path: Option<PlanPath>, kind: Seq<char>) -> Seq<PathUse> {
    match path {
        Some(path) => seq![PathUse { path, kind }],
        None => seq![],
    }
}

/// The paths of all issues, in order.
pub open spec fn issues_paths(issues: Seq<PlanIssue>) -> Seq<PathUse>
    decreases issues.len(),
{
    if issues.len() == 0 {
        seq![]
    } else {
        issues_paths(issues.drop_last()) + issue_path(issues.last())
    }
}

/// The paths of all steps, in order.
pub open spec fn steps_paths(steps: Seq<StoragePlanStep>) -> Seq<PathUse>
    decreases steps.len(),
{
    if steps.len() == 0 {
        seq![]
    } else {
        steps_paths(steps.drop_last()) + step_paths(steps.last())
    }
}

/// Every path of a plan: those of its issues, its steps, its rollback steps.
pub open spec fn plan_paths(plan: StoragePlan) -> Seq<PathUse> {
    issues_paths(plan.issues@) + steps_paths(plan.steps@) + steps_paths(plan.rollback_steps@)
}

pub open spec fn path_check(limits: EngineLimits) -> spec_fn(Seq<PathUse>, PathUse) -> Problem {
    |before: Seq<PathUse>, item: PathUse|
        plan_path_problem(limits, capped(path_bytes(before)), item.path, item.kind)
}

/// What is wrong with a plan. `serialized` is the size of its serialized form,
/// or why it has none.
pub open spec fn storage_plan_problem(
    limits: EngineLimits,
    plan: StoragePlan,
    serialized: Result<usize, String>,
) -> Problem {
    if plan.can_apply && plan.issues@.len() > 0 {
        Some("storage plan cannot_apply state conflicts with its issues"@)
    } else {
        either(
            item_count_problem(
                plan.issues@.len(),
                limits.storage_plan_items as nat,
                "storage plan issue list"@,
            ),
            either(
                item_count_problem(
                    plan.steps@.len(),
                    limits.storage_plan_items as nat,
                    "storage plan step list"@,
                ),
                either(
                    item_count_problem(
                        plan.rollback_steps@.len(),
                        limits.storage_plan_items as nat,
                        "storage plan rollback list"@,
                    ),
                    either(
                        first_problem(plan_paths(plan), path_check(limits)),
                        match serialized {
                            Err(error) => Some("storage plan cannot be serialized: "@ + error@),
                            Ok(bytes) => over_limit(
                                bytes as nat,
                                limits.storage_plan_serialized_bytes as nat,
                                "storage plan serialization contains "@,
                                " bytes; maximum is "@,
                            ),
                        },
                    ),
                ),
            ),
        )
    }
}

/// `all` starts with `seen`, which has no problem; `total` is its size.
spec fn paths_so_far(
    limits: EngineLimits,
    all: Seq<PathUse>,
    seen: Seq<PathUse>,
    total: usize,
) -> bool {
    &&& seen.len() <= all.len()
    &&& all.take(seen.len() as int) == seen
    &&& first_problem(seen, path_check(limits)) is None
    &&& total == capped(path_bytes(seen))
}

/// Judges one more path of `all`, the one after `seen`.
fn check_next_path(
    limits: &EngineLimits,
    path: &PlanPath,
    total: &mut usize,
    kind: &str,
    Ghost(all): Ghost<Seq<PathUse>>,
    Ghost(seen): Ghost<Seq<PathUse>>,
) -> (r: CmdResult<()>)
    requires
        paths_so_far(*limits, all, seen, *old(total)),
        seen.len() < all.len(),
        all[seen.len() as int] == (PathUse { path: *path, kind: kind@ }),
    ensures
        r is Ok ==> paths_so_far(
            *limits,
            all,
            seen.push(PathUse { path: *path, kind: kind@ }),
            *final(total),
        ),
        r matches Err(e) ==> first_problem(all, path_check(*limits)) == Some(e@),
{
    proof {
        let check = path_check(*limits);
        let item = PathUse { path: *path, kind: kind@ };
        lemma_first_problem_step(all, seen.len() as int, check);
        assert(all.take(seen.len() as int + 1) =~= seen.push(item));
        assert(seen.push(item).drop_last() =~= seen);
        if plan_path_problem(*limits, *total as nat, *path, kind@) is Some {
            lemma_first_problem_stays(all, seen.len() as int + 1, check);
        }
    }
    validation_validate_storage_plan_path(limits, path, total, kind)
}

/// Judges the paths of a list of steps, those after `seen` in `all`.
fn check_step_paths(
    limits: &EngineLimits,
    steps: &[StoragePlanStep],
    total: &mut usize,
    Ghost(all): Ghost<Seq<PathUse>>,
    Ghost(seen): Ghost<Seq<PathUse>>,
) -> (r: CmdResult<()>)
    requires
        paths_so_far(*limits, all, seen, *old(total)),
        seen.len() + steps_paths(steps@).len() <= all.len(),
        all.subrange(seen.len() as int, (seen.len() + steps_paths(steps@).len()) as int)
            == steps_paths(steps@),
    ensures
        r is Ok ==> paths_so_far(*limits, all, seen + steps_paths(steps@), *final(total)),
        r matches Err(e) ==> first_problem(all, path_check(*limits)) == Some(e@),
{
    let mut i: usize = 0;
    let ghost base = seen.len() as int;
    proof {
        assert(steps@.take(0) =~= Seq::<StoragePlanStep>::empty());
        assert(seen + steps_paths(steps@.take(0)) =~= seen);
    }
    while i < steps.len()
        invariant
            i <= steps.len(),
            base == seen.len(),
            base + steps_paths(steps@).len() <= all.len(),
            all.subrange(base, base + steps_paths(steps@).len()) == steps_paths(steps@),
            paths_so_far(*limits, all, seen + steps_paths(steps@.take(i as int)), *total),
        decreases steps.len() - i,
    {
        let ghost done = steps_paths(steps@.take(i as int));
        let ghost now = seen + done;
        let ghost step = steps@[i as int];
        proof {
            assert(steps@.take(i as int + 1).drop_last() =~= steps@.take(i as int));
            assert(steps_paths(steps@.take(i as int + 1)) == done + step_paths(step));
            lemma_steps_paths_prefix(steps@, i as int + 1);
            assert forall|k: int| 0 <= k < done.len() + step_paths(step).len() implies all[base + k]
                == (done + step_paths(step))[k] by {
                assert(all[base + k] == all.subrange(
                    base,
                    base + steps_paths(steps@).len(),
                )[k]);
                assert(steps_paths(steps@).take(
                    (done + step_paths(step)).len() as int,
                )[k] == (done + step_paths(step))[k]);
            }
        }
        let ghost mut at = now;
        if let Some(path) = &steps[i].source {
            let ghost item = PathUse { path: *path, kind: "storage plan source path"@ };
            proof {
                assert(step_paths(step)[0] == item);
                assert(all[base + done.len()] == (done + step_paths(step))[done.len() as int]);
            }
            check_next_path(limits, path, total, "storage plan source path", Ghost(all), Ghost(at))?;
            proof {
                at = at.push(item);
            }
        }
        if let Some(path) = &steps[i].destination {
            let ghost item = PathUse { path: *path, kind: "storage plan destination path"@ };
            proof {
                let k = (at.len() - base) as int;
                assert(step_paths(step)[k - done.len()] == item);
                assert(all[base + k] == (done + step_paths(step))[k]);
            }
            check_next_path(
                limits,
                path,
                total,
                "storage plan destination path",
                Ghost(all),
                Ghost(at),
            )?;
            proof {
                at = at.push(item);
            }
        }
        assert(at =~= seen + steps_paths(steps@.take(i as int + 1)));
        i = i + 1;
    }
    assert(steps@.take(i as int) =~= steps@);
    Ok(())
}

/// The paths of the first steps come first.
proof fn lemma_steps_paths_prefix(steps: Seq<StoragePlanStep>, n: int)
    requires
        0 <= n <= steps.len(),
    ensures
        steps_paths(steps.take(n)).len() <= steps_paths(steps).len(),
        steps_paths(steps).take(steps_paths(steps.take(n)).len() as int) == steps_paths(
            steps.take(n),
        ),
    decreases steps.len() - n,
{
    if n == steps.len() {
        assert(steps.take(n) =~= steps);
        assert(steps_paths(steps).take(steps_paths(steps).len() as int) =~= steps_paths(steps));
    } else {
        lemma_steps_paths_prefix(steps, n + 1);
        assert(steps.take(n + 1).drop_last() =~= steps.take(n));
        let a = steps_paths(steps.take(n));
        let b = steps_paths(steps.take(n + 1));
        assert(b.take(a.len() as int) =~= a);
        assert(steps_paths(steps).take(a.len() as int) =~= steps_paths(steps).take(
            b.len() as int,
        ).take(a.len() as int));
    }
}

/// The paths of the first issues come first.
proof fn lemma_issues_paths_prefix(issues: Seq<PlanIssue>, n: int)
    requires
        0 <= n <= issues.len(),
    ensures
        issues_paths(issues.take(n)).len() <= issues_paths(issues).len(),
        issues_paths(issues).take(issues_paths(issues.take(n)).len() as int) == issues_paths(
            issues.take(n),
        ),
    decreases issues.len() - n,
{
    if n == issues.len() {
        assert(issues.take(n) =~= issues);
        assert(issues_paths(issues).take(issues_paths(issues).len() as int) =~= issues_paths(
            issues,
        ));
    } else {
        lemma_issues_paths_prefix(issues, n + 1);
        assert(issues.take(n + 1).drop_last() =~= issues.take(n));
        let a = issues_paths(issues.take(n));
        let b = issues_paths(issues.take(n + 1));
        assert(b.take(a.len() as int) =~= a);
        assert(issues_paths(issues).take(a.len() as int) =~= issues_paths(issues).take(
            b.len() as int,
        ).take(a.len() as int));
    }
}

/// A storage plan is consistent and bounded.
#[verifier::loop_isolation(false)]
pub fn validation_validate_storage_plan(
    limits: &EngineLimits,
    plan: &StoragePlan,
    serialized: Result<usize, String>,
) -> (r: CmdResult<()>)
    ensures
        reports(r, storage_plan_problem(*limits, *plan, serialized)),
{
    if plan.can_apply && plan.issues.len() > 0 {
        return Err("storage plan cannot_apply state conflicts with its issues".to_owned());
    }
    validation_validate_command_item_len(
        plan.issues.len(),
        limits.storage_plan_items,
        "storage plan issue list",
    )?;
    validation_validate_command_item_len(
        plan.steps.len(),
        limits.storage_plan_items,
        "storage plan step list",
    )?;
    validation_validate_command_item_len(
        plan.rollback_steps.len(),
        limits.storage_plan_items,
        "storage plan rollback list",
    )?;
    let ghost all = plan_paths(*plan);
    let ghost of_issues = issues_paths(plan.issues@);
    let ghost of_steps = steps_paths(plan.steps@);
    let ghost of_rollback = steps_paths(plan.rollback_steps@);
    let mut total: usize = 0;
    let mut i: usize = 0;
    proof {
        assert(plan.issues@.take(0) =~= Seq::<PlanIssue>::empty());
        assert(all.take(0) =~= Seq::<PathUse>::empty());
    }
    while i < plan.issues.len()
        invariant
            i <= plan.issues@.len(),
            all == plan_paths(*plan),
            of_issues == issues_paths(plan.issues@),
            paths_so_far(*limits, all, issues_paths(plan.issues@.take(i as int)), total),
        decreases plan.issues.len() - i,
    {
        let ghost seen = issues_paths(plan.issues@.take(i as int));
        let ghost issue = plan.issues@[i as int];
        proof {
            assert(plan.issues@.take(i as int + 1).drop_last() =~= plan.issues@.take(i as int));
            assert(issues_paths(plan.issues@.take(i as int + 1)) == seen + issue_path(issue));
            lemma_issues_paths_prefix(plan.issues@, i as int + 1);
            if issue_path(issue).len() > 0 {
                let k = seen.len() as int;
                assert((seen + issue_path(issue))[k] == issue_path(issue)[0]);
                assert(of_issues.take(k + 1)[k] == of_issues[k]);
                assert(all[k] == of_issues[k]);
            }
        }
        match &plan.issues[i] {
            PlanIssue::SourceMissing(path) | PlanIssue::DestinationExists(path) => {
                check_next_path(
                    limits,
                    path,
                    &mut total,
                    "storage plan issue path",
                    Ghost(all),
                    Ghost(seen),
                )?;
                assert(seen + issue_path(issue) =~= seen.push(
                    PathUse { path: *path, kind: "storage plan issue path"@ },
                ));
            },
            _ => {
                assert(seen + issue_path(issue) =~= seen);
            },
        }
        i = i + 1;
    }
    proof {
        assert(plan.issues@.take(i as int) =~= plan.issues@);
        assert(all.subrange(of_issues.len() as int, (of_issues.len() + of_steps.len()) as int)
            =~= of_steps);
    }
    check_step_paths(
        limits,
        plan.steps.as_slice(),
        &mut total,
        Ghost(all),
        Ghost(of_issues),
    )?;
    proof {
        let seen = of_issues + of_steps;
        assert(all.subrange(seen.len() as int, (seen.len() + of_rollback.len()) as int)
            =~= of_rollback);
    }
    check_step_paths(
        limits,
        plan.rollback_steps.as_slice(),
        &mut total,
        Ghost(all),
        Ghost(of_issues + of_steps),
    )?;
    proof {
        assert(of_issues + of_steps + of_rollback == all);
    }
    match serialized {
        Err(error) => Err(join2("storage plan cannot be serialized: ", error.as_str())),
        Ok(bytes) => check_limit(
            bytes,
            limits.storage_plan_serialized_bytes,
            "storage plan serialization contains ",
            " bytes; maximum is ",
        ),
    }
}

/// The form under which a torrent is filed: ASCII letters in lower case.
pub open spec fn canonical_hash(info_hash: Seq<char>) -> Seq<char> {
    lowered(info_hash)
}

/// Brings an info hash into the form under which its torrent is filed.
pub fn canonical_info_hash(info_hash: String) -> (r: String)
    ensures
        r@ == canonical_hash(info_hash@),
{
    to_ascii_lowercase(info_hash.as_str())
}

pub open spec fn info_hash_problem(limits: EngineLimits, info_hash: Seq<char>) -> Problem {
    text_problem(info_hash, limits.info_hash_bytes as nat, "info hash"@)
}

/// Brings an info hash of bounded length into its canonical form.
pub fn validation_canonical_info_hash_checked(limits: &EngineLimits, info_hash: String) -> (r:
    CmdResult<String>)
    ensures
        match info_hash_problem(*limits, info_hash@) {
            None => r matches Ok(hash) && hash@ == canonical_hash(info_hash@),
            Some(text) => r matches Err(e) && e@ == text,
        },
{
    validation_validate_text_bytes(info_hash.as_str(), limits.info_hash_bytes, "info hash")?;
    Ok(canonical_info_hash(info_hash))
}

/// The bytes of all canonical forms of a list.
pub open spec fn canonical_bytes(info_hashes: Seq<String>) -> nat
    decreases info_hashes.len(),
{
    if info_hashes.len() == 0 {
        0
    } else {
        canonical_bytes(info_hashes.drop_last()) + byte_len(canonical_hash(info_hashes.last()@))
    }
}

pub open spec fn hash_list_check(limits: EngineLimits) -> spec_fn(Seq<String>, String) -> Problem {
    |before: Seq<String>, info_hash: String|
        either(
            info_hash_problem(limits, info_hash@),
            byte_count_problem(
                capped(canonical_bytes(before) + byte_len(canonical_hash(info_hash@))),
                limits.info_hash_list_bytes as nat,
                "torrent hash list"@,
            ),
        )
}

pub open spec fn hash_list_problem(limits: EngineLimits, info_hashes: Seq<String>) -> Problem {
    either(
        item_count_problem(
            info_hashes.len(),
            limits.mutation_items as nat,
            "torrent hash list"@,
        ),
        first_problem(info_hashes, hash_list_check(limits)),
    )
}

/// `canonical` holds the canonical form of each info hash, in order.
pub open spec fn are_canonical_forms(canonical: Seq<String>, info_hashes: Seq<String>) -> bool {
    &&& canonical.len() == info_hashes.len()
    &&& forall|i: int|
        0 <= i < canonical.len() ==> (#[trigger] canonical[i])@ == canonical_hash(info_hashes[i]@)
}

/// Brings a bounded list of info hashes into canonical form.
#[verifier::loop_isolation(false)]
pub fn validation_canonical_info_hash_list(limits: &EngineLimits, info_hashes: Vec<String>) -> (r:
    CmdResult<Vec<String>>)
    ensures
        match hash_list_problem(*limits, info_hashes@) {
            None => r matches Ok(list) && are_canonical_forms(list@, info_hashes@),
            Some(text) => r matches Err(e) && e@ == text,
        },
{
    validation_validate_command_item_len(
        info_hashes.len(),
        limits.mutation_items,
        "torrent hash list",
    )?;
    let ghost check = hash_list_check(*limits);
    let mut bytes: usize = 0;
    let mut canonical: Vec<String> = Vec::new();
    let mut i: usize = 0;
    assert(info_hashes@.take(0) =~= Seq::<String>::empty());
    while i < info_hashes.len()
        invariant
            i <= info_hashes.len(),
            bytes == capped(canonical_bytes(info_hashes@.take(i as int))),
            first_problem(info_hashes@.take(i as int), check) is None,
            are_canonical_forms(canonical@, info_hashes@.take(i as int)),
        decreases info_hashes.len() - i,
    {
        proof {
            lemma_first_problem_step(info_hashes@, i as int, check);
            assert(info_hashes@.take(i as int + 1).drop_last() =~= info_hashes@.take(i as int));
            if first_problem(info_hashes@.take(i as int + 1), check) is Some {
                lemma_first_problem_stays(info_hashes@, i + 1, check);
            }
        }
        let info_hash = validation_canonical_info_hash_checked(limits, info_hashes[i].clone())?;
        bytes = bytes.saturating_add(info_hash.as_str().len());
        check_limit(
            bytes,
            limits.info_hash_list_bytes,
            join2("torrent hash list", " contains ").as_str(),
            " bytes; maximum is ",
        )?;
        canonical.push(info_hash);
        i = i + 1;
    }
    assert(info_hashes@.take(i as int) =~= info_hashes@);
    Ok(canonical)
}

pub open spec fn optional_text_problem(
    value: Option<Seq<char>>,
    maximum: nat,
    kind: Seq<char>,
) -> Problem {
    match value {
        Some(value) => text_problem(value, maximum, kind),
        None => None,
    }
}

/// The view of an optional text.
pub open spec fn text_of(value: Option<&str>) -> Option<Seq<char>> {
    match value {
        Some(value) => Some(value@),
        None => None,
    }
}

/// The view of an optional owned text.
pub open spec fn owned_text(value: Option<String>) -> Option<Seq<char>> {
    match value {
        Some(value) => Some(value@),
        None => None,
    }
}

/// A text that is given occupies at most `maximum` bytes.
pub fn validate_optional_text(value: Option<&str>, maximum: usize, kind: &str) -> (r: CmdResult<()>)
    ensures
        reports(r, optional_text_problem(text_of(value), maximum as nat, kind@)),
{
    match value {
        Some(value) => validation_validate_text_bytes(value, maximum, kind),
        None => Ok(()),
    }
}

/// An owned text that is given occupies at most `maximum` bytes.
pub fn validate_owned_text(value: &Option<String>, maximum: usize, kind: &str) -> (r: CmdResult<()>)
    ensures
        reports(r, optional_text_problem(owned_text(*value), maximum as nat, kind@)),
{
    match value {
        Some(value) => validation_validate_text_bytes(value.as_str(), maximum, kind),
        None => Ok(()),
    }
}

pub open spec fn category_problem(limits: EngineLimits, category: Option<Seq<char>>) -> Problem {
    optional_text_problem(category, limits.category_bytes as nat, "category"@)
}

/// A category name that is given is bounded.
pub fn validation_validate_category_value(limits: &EngineLimits, category: Option<&str>) -> (r:
    CmdResult<()>)
    ensures
        reports(r, category_problem(*limits, text_of(category))),
{
    validate_optional_text(category, limits.category_bytes, "category")
}

/// The limits of one torrent.
#[derive(Clone, Copy, Debug, PartialEq, Eq, Structural)]
pub struct EngineTorrentLimits {
    /// The ratio up to which the torrent is seeded: the bits of a number in the
    /// binary64 format, a sign bit, 11 bits of exponent and 52 of fraction.
    pub seed_ratio_bits: Option<u64>,
}

/// The exponent field of a binary64 number.
pub open spec fn exponent_field(bits: u64) -> int {
    (bits as int / 0x10_0000_0000_0000) % 0x800
}

/// A binary64 number is infinite or not a number when its exponent is all ones.
pub open spec fn is_finite(bits: u64) -> bool {
    exponent_field(bits) != 0x7ff
}

pub open spec fn torrent_limits_problem(limits: EngineTorrentLimits) -> Problem {
    match limits.seed_ratio_bits {
        Some(bits) => if is_finite(bits) {
            None
        } else {
            Some("torrent seed ratio limit must be finite"@)
        },
        None => None,
    }
}

/// A seed ratio that is given is finite.
pub fn validation_validate_torrent_limits(limits: &EngineTorrentLimits) -> (r: CmdResult<()>)
    ensures
        reports(r, torrent_limits_problem(*limits)),
{
    if let Some(bits) = limits.seed_ratio_bits {
        if (bits / 0x10_0000_0000_0000) % 0x800 == 0x7ff {
            return Err("torrent seed ratio limit must be finite".to_owned());
        }
    }
    Ok(())
}

pub open spec fn save_path_problem(limits: EngineLimits, path: Option<Seq<char>>) -> Problem {
    optional_text_problem(path, limits.save_path_bytes as nat, "save path"@)
}

/// A save path that is given is bounded.
pub fn validation_validate_save_path_value(limits: &EngineLimits, path: Option<&str>) -> (r:
    CmdResult<()>)
    ensures
        reports(r, save_path_problem(*limits, text_of(path))),
{
    validate_optional_text(path, limits.save_path_bytes, "save path")
}

pub open spec fn tracker_list_problem(limits: EngineLimits, trackers: Seq<String>) -> Problem {
    either(
        item_count_problem(trackers.len(), limits.mutation_items as nat, "tracker list"@),
        text_list_problem(
            trackers,
            limits.tracker_url_bytes as nat,
            limits.tracker_bytes as nat,
            "tracker URL at index "@,
            "tracker list"@,
        ),
    )
}

/// A list of tracker URLs is bounded in number and in bytes.
pub fn validation_validate_tracker_urls(limits: &EngineLimits, trackers: &[String]) -> (r:
    CmdResult<()>)
    ensures
        reports(r, tracker_list_problem(*limits, trackers@)),
{
    validation_validate_command_item_len(trackers.len(), limits.mutation_items, "tracker list")?;
    check_text_list(
        trackers,
        limits.tracker_url_bytes,
        limits.tracker_bytes,
        "tracker URL at index ",
        "tracker list",
    )
}

/// The bytes of all tracker URLs without the white space around them.
pub open spec fn trimmed_bytes(trackers: Seq<String>) -> nat
    decreases trackers.len(),
{
    if trackers.len() == 0 {
        0
    } else {
        trimmed_bytes(trackers.drop_last()) + byte_len(trimmed(trackers.last()@))
    }
}

/// Adds up the tracker URLs of a torrent, white space around them left out.
pub fn validation_tracker_urls_bytes(trackers: &[String]) -> (r: usize)
    ensures
        r == capped(trimmed_bytes(trackers@)),
{
    let mut bytes: usize = 0;
    let mut i: usize = 0;
    assert(trackers@.take(0) =~= Seq::<String>::empty());
    while i < trackers.len()
        invariant
            i <= trackers.len(),
            bytes == capped(trimmed_bytes(trackers@.take(i as int))),
        decreases trackers.len() - i,
    {
        assert(trackers@.take(i as int + 1).drop_last() =~= trackers@.take(i as int));
        bytes = bytes.saturating_add(trim(trackers[i].as_str()).as_str().len());
        i = i + 1;
    }
    assert(trackers@.take(i as int) =~= trackers@);
    bytes
}

/// The distinct tracker URLs of a list, in the order of their first mention:
/// white space around them is dropped and blank ones are left out.
pub open spec fn distinct_trackers(trackers: Seq<String>) -> Seq<Seq<char>>
    decreases trackers.len(),
{
    if trackers.len() == 0 {
        seq![]
    } else {
        let seen = distinct_trackers(trackers.drop_last());
        let url = trimmed(trackers.last()@);
        if url.len() == 0 || seen.contains(url) {
            seen
        } else {
            seen.push(url)
        }
    }
}

/// The problem of one tracker URL of a metainfo file, given those before it.
pub open spec fn meta_tracker_check(limits: EngineLimits) -> spec_fn(Seq<String>, String) -> Problem {
    |before: Seq<String>, url: String|
        {
            let seen = distinct_trackers(before);
            either(
                over_limit(
                    byte_len(url@),
                    limits.tracker_url_bytes as nat,
                    "metainfo tracker URL at index "@ + decimal(seen.len()) + " contains "@,
                    " bytes; maximum is "@,
                ),
                either(
                    byte_count_problem(
                        capped(total_bytes(before) + byte_len(url@)),
                        limits.tracker_bytes as nat,
                        "metainfo tracker list"@,
                    ),
                    if trimmed(url@).len() > 0 && !seen.contains(trimmed(url@)) && seen.len()
                        >= limits.mutation_items {
                        Some(
                            "metainfo tracker list contains more than "@ + decimal(
                                limits.mutation_items as nat,
                            ) + " items"@,
                        )
                    } else {
                        None
                    },
                ),
            )
        }
}

/// All tracker URLs of the tiers of a list, in order.
pub open spec fn tier_urls(tiers: Seq<Vec<String>>) -> Seq<String>
    decreases tiers.len(),
{
    if tiers.len() == 0 {
        seq![]
    } else {
        tier_urls(tiers.drop_last()) + tiers.last()@
    }
}

/// All tracker URLs of a metainfo file: the main one, then the tiers.
pub open spec fn meta_trackers(announce: Option<String>, tiers: Seq<Vec<String>>) -> Seq<String> {
    match announce {
        Some(url) => seq![url] + tier_urls(tiers),
        None => tier_urls(tiers),
    }
}

pub open spec fn meta_tracker_problem(
    limits: EngineLimits,
    announce: Option<String>,
    announce_list: Seq<Vec<String>>,
) -> Problem {
    either(
        item_count_problem(
            announce_list.len(),
            limits.meta_tracker_tiers as nat,
            "metainfo tracker tier list"@,
        ),
        first_problem(meta_trackers(announce, announce_list), meta_tracker_check(limits)),
    )
}

/// `seen` lists the distinct trackers of the first `n` of `all`, which have no
/// problem; `bytes` is the size of those `n`.
spec fn trackers_so_far(
    limits: EngineLimits,
    all: Seq<String>,
    n: int,
    seen: Seq<String>,
    bytes: usize,
) -> bool {
    let distinct = distinct_trackers(all.take(n));
    &&& 0 <= n <= all.len()
    &&& first_problem(all.take(n), meta_tracker_check(limits)) is None
    &&& bytes == capped(total_bytes(all.take(n)))
    &&& seen.len() == distinct.len()
    &&& forall|i: int| 0 <= i < seen.len() ==> (#[trigger] seen[i])@ == distinct[i]
}

/// Whether a list holds a text.
fn contains_text(list: &Vec<String>, text: &String) -> (r: bool)
    ensures
        r <==> exists|i: int| 0 <= i < list@.len() && (#[trigger] list@[i])@ == text@,
{
    let mut i: usize = 0;
    while i < list.len()
        invariant
            i <= list.len(),
            forall|k: int| 0 <= k < i ==> (#[trigger] list@[k])@ != text@,
        decreases list.len() - i,
    {
        if list[i] == *text {
            return true;
        }
        i = i + 1;
    }
    false
}

/// Judges tracker `n` of `all`.
fn check_next_tracker(
    limits: &EngineLimits,
    url: &String,
    seen: &mut Vec<String>,
    bytes: &mut usize,
    Ghost(all): Ghost<Seq<String>>,
    Ghost(n): Ghost<int>,
) -> (r: CmdResult<()>)
    requires
        trackers_so_far(*limits, all, n, old(seen)@, *old(bytes)),
        n < all.len(),
        all[n] == *url,
    ensures
        r is Ok ==> trackers_so_far(*limits, all, n + 1, final(seen)@, *final(bytes)),
        r matches Err(e) ==> first_problem(all, meta_tracker_check(*limits)) == Some(e@),
{
    let ghost distinct = distinct_trackers(all.take(n));
    proof {
        let check = meta_tracker_check(*limits);
        lemma_first_problem_step(all, n, check);
        lemma_total_bytes_step(all, n);
        assert(all.take(n + 1).drop_last() =~= all.take(n));
        if first_problem(all.take(n + 1), check) is Some {
            lemma_first_problem_stays(all, n + 1, check);
        }
    }
    let index = count_text(seen.len());
    let before = join3("metainfo tracker URL at index ", index.as_str(), " contains ");
    check_limit(
        url.as_str().len(),
        limits.tracker_url_bytes,
        before.as_str(),
        " bytes; maximum is ",
    )?;
    *bytes = bytes.saturating_add(url.as_str().len());
    check_limit(
        *bytes,
        limits.tracker_bytes,
        join2("metainfo tracker list", " contains ").as_str(),
        " bytes; maximum is ",
    )?;
    let url = trim(url.as_str());
    let known = contains_text(seen, &url);
    proof {
        if known {
            let i = choose|i: int| 0 <= i < seen@.len() && (#[trigger] seen@[i])@ == url@;
            assert(distinct[i] == url@);
        } else if distinct.contains(url@) {
            let i = choose|i: int| 0 <= i < distinct.len() && distinct[i] == url@;
            assert(seen@[i]@ == url@);
        }
    }
    if url.as_str().is_empty() || known {
        return Ok(());
    }
    if seen.len() >= limits.mutation_items {
        let maximum = count_text(limits.mutation_items);
        return Err(
            join3("metainfo tracker list contains more than ", maximum.as_str(), " items"),
        );
    }
    seen.push(url);
    Ok(())
}

/// The URLs of the first tiers come first.
proof fn lemma_tier_urls_prefix(tiers: Seq<Vec<String>>, n: int)
    requires
        0 <= n <= tiers.len(),
    ensures
        tier_urls(tiers.take(n)).len() <= tier_urls(tiers).len(),
        tier_urls(tiers).take(tier_urls(tiers.take(n)).len() as int) == tier_urls(tiers.take(n)),
    decreases tiers.len() - n,
{
    if n == tiers.len() {
        assert(tiers.take(n) =~= tiers);
        assert(tier_urls(tiers).take(tier_urls(tiers).len() as int) =~= tier_urls(tiers));
    } else {
        lemma_tier_urls_prefix(tiers, n + 1);
        assert(tiers.take(n + 1).drop_last() =~= tiers.take(n));
        let a = tier_urls(tiers.take(n));
        let b = tier_urls(tiers.take(n + 1));
        assert(b.take(a.len() as int) =~= a);
        assert(tier_urls(tiers).take(a.len() as int) =~= tier_urls(tiers).take(
            b.len() as int,
        ).take(a.len() as int));
    }
}

/// The tracker URLs of a metainfo file are bounded in number and in bytes. A
/// URL that repeats an earlier one counts its bytes but not its place.
#[verifier::loop_isolation(false)]
pub fn validation_validate_meta_tracker_fields(
    limits: &EngineLimits,
    announce: &Option<String>,
    announce_list: &[Vec<String>],
) -> (r: CmdResult<()>)
    ensures
        reports(r, meta_tracker_problem(*limits, *announce, announce_list@)),
{
    validation_validate_command_item_len(
        announce_list.len(),
        limits.meta_tracker_tiers,
        "metainfo tracker tier list",
    )?;
    let ghost all = meta_trackers(*announce, announce_list@);
    let ghost mut n: int = 0;
    let mut seen: Vec<String> = Vec::new();
    let mut bytes: usize = 0;
    assert(all.take(0) =~= Seq::<String>::empty());
    if let Some(url) = announce {
        check_next_tracker(limits, url, &mut seen, &mut bytes, Ghost(all), Ghost(n))?;
        proof {
            n = 1;
        }
    }
    let ghost base = n;
    let mut i: usize = 0;
    assert(announce_list@.take(0) =~= Seq::<Vec<String>>::empty());
    while i < announce_list.len()
        invariant
            i <= announce_list.len(),
            n == base + tier_urls(announce_list@.take(i as int)).len(),
            trackers_so_far(*limits, all, n, seen@, bytes),
        decreases announce_list.len() - i,
    {
        let tier = &announce_list[i];
        let ghost done = tier_urls(announce_list@.take(i as int));
        proof {
            assert(announce_list@.take(i as int + 1).drop_last() =~= announce_list@.take(
                i as int,
            ));
            lemma_tier_urls_prefix(announce_list@, i as int + 1);
            let upto = tier_urls(announce_list@.take(i as int + 1));
            assert(upto == done + tier@);
            assert forall|k: int| 0 <= k < tier@.len() implies all[base + done.len() + k]
                == #[trigger] tier@[k] by {
                assert(tier_urls(announce_list@).take(upto.len() as int)[done.len() + k]
                    == upto[done.len() + k]);
            }
        }
        let mut j: usize = 0;
        while j < tier.len()
            invariant
                j <= tier@.len(),
                n == base + done.len() + j,
                trackers_so_far(*limits, all, n, seen@, bytes),
            decreases tier@.len() - j,
        {
            assert(all[n] == tier@[j as int]);
            check_next_tracker(limits, &tier[j], &mut seen, &mut bytes, Ghost(all), Ghost(n))?;
            proof {
                n = n + 1;
            }
            j = j + 1;
        }
        i = i + 1;
    }
    proof {
        assert(announce_list@.take(i as int) =~= announce_list@);
        assert(all.take(n) =~= all);
    }
    Ok(())
}

/// The tracker URLs that count for a torrent: those of its SHA-1 metainfo
/// where it has one.
pub open spec fn tracker_fields(kind: MetaKind) -> MetaFields {
    match kind {
        MetaKind::V1(meta) => meta.fields,
        MetaKind::Hybrid { v1, .. } => v1.fields,
        MetaKind::V2(meta) => meta.fields,
    }
}

pub open spec fn fields_tracker_problem(limits: EngineLimits, fields: MetaFields) -> Problem {
    meta_tracker_problem(limits, fields.announce, fields.announce_list@)
}

/// The tracker URLs of a torrent file are bounded.
pub fn validation_validate_meta_tracker_urls(limits: &EngineLimits, meta: &TorrentMeta) -> (r:
    CmdResult<()>)
    ensures
        reports(r, fields_tracker_problem(*limits, tracker_fields(meta.kind))),
{
    let fields = match &meta.kind {
        MetaKind::V1(meta) => &meta.fields,
        MetaKind::Hybrid { v1, .. } => &v1.fields,
        MetaKind::V2(meta) => &meta.fields,
    };
    validation_validate_meta_tracker_fields(
        limits,
        &fields.announce,
        fields.announce_list.as_slice(),
    )
}

pub open spec fn webseed_problem(limits: EngineLimits, webseeds: Seq<String>) -> Problem {
    either(
        item_count_problem(
            webseeds.len(),
            limits.meta_webseeds as nat,
            "metainfo webseed list"@,
        ),
        text_list_problem(
            webseeds,
            limits.tracker_url_bytes as nat,
            limits.meta_webseed_bytes as nat,
            "metainfo webseed list"@ + " item at index "@,
            "metainfo webseed list"@,
        ),
    )
}

/// The webseeds of a torrent file are bounded in number and in bytes.
pub fn validation_validate_meta_webseed_urls(limits: &EngineLimits, webseeds: &[String]) -> (r:
    CmdResult<()>)
    ensures
        reports(r, webseed_problem(*limits, webseeds@)),
{
    validation_validate_command_item_len(
        webseeds.len(),
        limits.meta_webseeds,
        "metainfo webseed list",
    )?;
    validation_validate_text_list_bytes(
        webseeds,
        limits.tracker_url_bytes,
        limits.meta_webseed_bytes,
        "metainfo webseed list",
    )
}

/// The bytes of a path: its components and one separator between any two.
pub open spec fn relative_path_bytes(path: SafeRelPath) -> nat {
    capped(
        capped(total_bytes(path.components@)) + if path.components@.len() > 0 {
            (path.components@.len() - 1) as nat
        } else {
            0
        },
    )
}

/// Measures a path in bytes, separators counted.
pub fn validation_safe_relative_path_bytes(path: &SafeRelPath) -> (r: usize)
    ensures
        r == relative_path_bytes(*path),
{
    let mut bytes: usize = 0;
    let mut i: usize = 0;
    let n: usize = path.components.len();
    assert(path.components@.take(0) =~= Seq::<String>::empty());
    while i < n
        invariant
            i <= n == path.components@.len(),
            bytes == capped(total_bytes(path.components@.take(i as int))),
        decreases n - i,
    {
        proof {
            lemma_total_bytes_step(path.components@, i as int);
        }
        bytes = bytes.saturating_add(path.components[i].as_str().len());
        i = i + 1;
    }
    assert(path.components@.take(i as int) =~= path.components@);
    bytes.saturating_add(n.saturating_sub(1))
}

/// Where one file stands in a torrent, and how long its path is.
#[derive(Clone, Copy, Debug)]
pub struct FileSpan {
    pub index: usize,
    pub path_bytes: usize,
    pub length: u64,
    pub offset: u64,
}

/// The bytes of all files of a list.
pub open spec fn spans_length(files: Seq<FileSpan>) -> nat
    decreases files.len(),
{
    if files.len() == 0 {
        0
    } else {
        spans_length(files.drop_last()) + files.last().length as nat
    }
}

/// The bytes of all paths of a list of files.
pub open spec fn spans_path_bytes(files: Seq<FileSpan>) -> nat
    decreases files.len(),
{
    if files.len() == 0 {
        0
    } else {
        spans_path_bytes(files.drop_last()) + files.last().path_bytes as nat
    }
}

/// The problem of one file, given those before it: files are numbered from
/// zero, follow one another without a gap, and are bounded.
pub open spec fn span_problem(limits: EngineLimits, before: Seq<FileSpan>, file: FileSpan) -> Problem {
    if before.len() + 1 > limits.meta_files {
        Some(
            "metainfo file list contains more than "@ + decimal(limits.meta_files as nat)
                + " items"@,
        )
    } else if file.index != before.len() {
        Some(
            "metainfo file index "@ + decimal(file.index as nat) + " is not the expected index "@
                + decimal(before.len()),
        )
    } else if file.offset != spans_length(before) {
        Some(
            "metainfo file offset "@ + decimal(file.offset as nat) + " at index "@ + decimal(
                file.index as nat,
            ) + " does not match expected "@ + decimal(spans_length(before)),
        )
    } else if spans_length(before) + file.length > u64::MAX {
        Some("metainfo file lengths overflow the engine's unsigned total"@)
    } else if file.path_bytes > limits.meta_path_bytes {
        Some(
            "metainfo file path at index "@ + decimal(file.index as nat) + " contains "@ + decimal(
                file.path_bytes as nat,
            ) + " bytes; maximum is "@ + decimal(limits.meta_path_bytes as nat),
        )
    } else {
        over_limit(
            capped(spans_path_bytes(before) + file.path_bytes as nat),
            limits.meta_path_total_bytes as nat,
            "metainfo file paths contain "@,
            " bytes; maximum is "@,
        )
    }
}

pub open spec fn span_check(limits: EngineLimits) -> spec_fn(Seq<FileSpan>, FileSpan) -> Problem {
    |before: Seq<FileSpan>, file: FileSpan| span_problem(limits, before, file)
}

pub open spec fn spans_problem(limits: EngineLimits, files: Seq<FileSpan>) -> Problem {
    first_problem(files, span_check(limits))
}

/// The files of a torrent lie one after another and are bounded; the result is
/// the number of bytes that they hold together.
pub fn validation_validate_meta_files(limits: &EngineLimits, files: &[FileSpan]) -> (r: CmdResult<
    u64,
>)
    ensures
        match spans_problem(*limits, files@) {
            None => r matches Ok(total) && total == spans_length(files@),
            Some(text) => r matches Err(e) && e@ == text,
        },
{
    let ghost check = span_check(*limits);
    let mut total_paths: usize = 0;
    let mut total_length: u64 = 0;
    let mut i: usize = 0;
    assert(files@.take(0) =~= Seq::<FileSpan>::empty());
    while i < files.len()
        invariant
            i <= files.len(),
            check == span_check(*limits),
            total_length == spans_length(files@.take(i as int)),
            total_paths == capped(spans_path_bytes(files@.take(i as int))),
            first_problem(files@.take(i as int), check) is None,
        decreases files.len() - i,
    {
        let file = files[i];
        proof {
            lemma_first_problem_step(files@, i as int, check);
            assert(files@.take(i as int + 1).drop_last() =~= files@.take(i as int));
            if first_problem(files@.take(i as int + 1), check) is Some {
                lemma_first_problem_stays(files@, i + 1, check);
            }
        }
        if i >= limits.meta_files {
            let maximum = count_text(limits.meta_files);
            return Err(
                join3("metainfo file list contains more than ", maximum.as_str(), " items"),
            );
        }
        let index = count_text(file.index);
        if file.index != i {
            let expected = count_text(i);
            return Err(
                join4(
                    "metainfo file index ",
                    index.as_str(),
                    " is not the expected index ",
                    expected.as_str(),
                ),
            );
        }
        if file.offset != total_length {
            let offset = decimal_text(file.offset);
            let expected = decimal_text(total_length);
            return Err(
                join6(
                    "metainfo file offset ",
                    offset.as_str(),
                    " at index ",
                    index.as_str(),
                    " does not match expected ",
                    expected.as_str(),
                ),
            );
        }
        total_length =
        match total_length.checked_add(file.length) {
            Some(sum) => sum,
            None => {
                return Err("metainfo file lengths overflow the engine's unsigned total".to_owned());
            },
        };
        let before = join3("metainfo file path at index ", index.as_str(), " contains ");
        check_limit(
            file.path_bytes,
            limits.meta_path_bytes,
            before.as_str(),
            " bytes; maximum is ",
        )?;
        total_paths = total_paths.saturating_add(file.path_bytes);
        check_limit(
            total_paths,
            limits.meta_path_total_bytes,
            "metainfo file paths contain ",
            " bytes; maximum is ",
        )?;
        i = i + 1;
    }
    assert(files@.take(i as int) =~= files@);
    Ok(total_length)
}

/// What the file list of a torrent says of each file's place.
pub open spec fn file_spans(files: Seq<MetaFile>) -> Seq<FileSpan> {
    Seq::new(
        files.len(),
        |i: int|
            FileSpan {
                index: i as usize,
                path_bytes: relative_path_bytes(files[i].path) as usize,
                length: files[i].length,
                offset: files[i].offset,
            },
    )
}

fn spans_of(files: &[MetaFile]) -> (r: Vec<FileSpan>)
    ensures
        r@ == file_spans(files@),
{
    let mut spans: Vec<FileSpan> = Vec::new();
    let mut i: usize = 0;
    while i < files.len()
        invariant
            i <= files.len(),
            spans@.len() == i,
            forall|k: int| 0 <= k < i ==> spans@[k] == #[trigger] file_spans(files@)[k],
        decreases files.len() - i,
    {
        spans.push(
            FileSpan {
                index: i,
                path_bytes: validation_safe_relative_path_bytes(&files[i].path),
                length: files[i].length,
                offset: files[i].offset,
            },
        );
        i = i + 1;
    }
    assert(spans@ =~= file_spans(files@));
    spans
}

/// Some file of the list holds payload.
pub open spec fn has_payload(files: Seq<MetaFile>) -> bool {
    exists|i: int| 0 <= i < files.len() && !(#[trigger] files[i]).pad && files[i].length > 0
}

fn any_payload(files: &[MetaFile]) -> (r: bool)
    ensures
        r == has_payload(files@),
{
    let mut i: usize = 0;
    while i < files.len()
        invariant
            i <= files.len(),
            forall|k: int| 0 <= k < i ==> (#[trigger] files@[k]).pad || files@[k].length == 0,
        decreases files.len() - i,
    {
        if !files[i].pad && files[i].length > 0 {
            return true;
        }
        i = i + 1;
    }
    false
}

pub open spec fn common_problem(limits: EngineLimits, fields: MetaFields) -> Problem {
    either(
        text_problem(fields.name@, limits.name_bytes as nat, "torrent name"@),
        either(
            optional_text_problem(
                owned_text(fields.comment),
                limits.metadata_text_bytes as nat,
                "torrent comment"@,
            ),
            either(
                optional_text_problem(
                    owned_text(fields.created_by),
                    limits.metadata_text_bytes as nat,
                    "torrent created-by"@,
                ),
                either(
                    fields_tracker_problem(limits, fields),
                    webseed_problem(limits, fields.webseeds@),
                ),
            ),
        ),
    )
}

/// The texts, trackers and webseeds of a torrent file are bounded.
pub fn validation_validate_meta_common(limits: &EngineLimits, fields: &MetaFields) -> (r: CmdResult<
    (),
>)
    ensures
        reports(r, common_problem(*limits, *fields)),
{
    validation_validate_text_bytes(fields.name.as_str(), limits.name_bytes, "torrent name")?;
    validate_owned_text(&fields.comment, limits.metadata_text_bytes, "torrent comment")?;
    validate_owned_text(&fields.created_by, limits.metadata_text_bytes, "torrent created-by")?;
    validation_validate_meta_tracker_fields(
        limits,
        &fields.announce,
        fields.announce_list.as_slice(),
    )?;
    validation_validate_meta_webseed_urls(limits, fields.webseeds.as_slice())
}

/// How many pieces of `piece_length` bytes cover `total` bytes.
pub open spec fn pieces_covering(total: nat, piece_length: nat) -> nat
    recommends
        piece_length > 0,
{
    ((total + piece_length - 1) / piece_length as int) as nat
}

/// A piece length that is zero or does not fit in 32 bits is refused.
pub open spec fn piece_length_problem(piece_length: u64, label: Seq<char>) -> Problem {
    if piece_length == 0 || piece_length > u32::MAX {
        Some(label + decimal(piece_length as nat) + " is outside the engine range"@)
    } else {
        None
    }
}

fn check_piece_length(piece_length: u64, label: &str) -> (r: CmdResult<()>)
    ensures
        reports(r, piece_length_problem(piece_length, label@)),
{
    if piece_length == 0 || piece_length > u32::MAX as u64 {
        let length = decimal_text(piece_length);
        return Err(join3(label, length.as_str(), " is outside the engine range"));
    }
    Ok(())
}

/// The number of SHA-1 piece hashes is bounded and is the number that the
/// payload needs.
pub open spec fn v1_pieces_problem(
    limits: EngineLimits,
    total: nat,
    piece_length: u64,
    pieces: nat,
) -> Problem {
    let expected = pieces_covering(total, piece_length as nat);
    if total + piece_length - 1 > u64::MAX {
        Some("torrent piece count overflow"@)
    } else if expected > usize::MAX {
        Some("torrent piece count does not fit in memory"@)
    } else if expected > limits.meta_pieces {
        Some(
            "torrent contains "@ + decimal(expected) + " pieces; maximum is "@ + decimal(
                limits.meta_pieces as nat,
            ),
        )
    } else if pieces != expected {
        Some(
            "torrent piece count "@ + decimal(pieces) + " does not match expected "@ + decimal(
                expected,
            ),
        )
    } else {
        None
    }
}

fn check_v1_pieces(limits: &EngineLimits, total: u64, piece_length: u64, pieces: usize) -> (r:
    CmdResult<()>)
    requires
        piece_length > 0,
    ensures
        reports(r, v1_pieces_problem(*limits, total as nat, piece_length, pieces as nat)),
{
    let padded = match total.checked_add(piece_length - 1) {
        Some(padded) => padded,
        None => {
            return Err("torrent piece count overflow".to_owned());
        },
    };
    let expected: u64 = padded / piece_length;
    assert(expected == pieces_covering(total as nat, piece_length as nat));
    if expected > usize::MAX as u64 {
        return Err("torrent piece count does not fit in memory".to_owned());
    }
    let expected: usize = expected as usize;
    check_limit(expected, limits.meta_pieces, "torrent contains ", " pieces; maximum is ")?;
    if pieces != expected {
        let found = count_text(pieces);
        let wanted = count_text(expected);
        return Err(
            join4(
                "torrent piece count ",
                found.as_str(),
                " does not match expected ",
                wanted.as_str(),
            ),
        );
    }
    Ok(())
}

/// The number of pieces of a file tree is bounded.
pub open spec fn v2_pieces_problem(
    limits: EngineLimits,
    piece_count: u64,
    too_many: Seq<char>,
    between: Seq<char>,
) -> Problem {
    if piece_count > usize::MAX {
        Some(too_many)
    } else {
        over_limit(piece_count as nat, limits.meta_pieces as nat, "torrent contains "@, between)
    }
}

fn check_v2_pieces(limits: &EngineLimits, piece_count: u64, too_many: &str, between: &str) -> (r:
    CmdResult<()>)
    ensures
        reports(r, v2_pieces_problem(*limits, piece_count, too_many@, between@)),
{
    if piece_count > usize::MAX as u64 {
        return Err(too_many.to_owned());
    }
    check_limit(piece_count as usize, limits.meta_pieces, "torrent contains ", between)
}

/// A torrent that holds nothing is refused.
pub open spec fn empty_problem(holds_nothing: bool) -> Problem {
    if holds_nothing {
        Some("torrent total length must be greater than zero"@)
    } else {
        None
    }
}

fn check_not_empty(holds_nothing: bool) -> (r: CmdResult<()>)
    ensures
        reports(r, empty_problem(holds_nothing)),
{
    if holds_nothing {
        return Err("torrent total length must be greater than zero".to_owned());
    }
    Ok(())
}

pub open spec fn files_problem(limits: EngineLimits, fields: MetaFields) -> Problem {
    spans_problem(limits, file_spans(fields.files@))
}

pub open spec fn files_length(fields: MetaFields) -> nat {
    spans_length(file_spans(fields.files@))
}

/// What is wrong with the contents of a torrent file, first things first.
pub open spec fn kind_problem(limits: EngineLimits, kind: MetaKind) -> Problem {
    match kind {
        MetaKind::V1(meta) => either(
            common_problem(limits, meta.fields),
            either(
                files_problem(limits, meta.fields),
                either(
                    empty_problem(
                        files_length(meta.fields) == 0 || !has_payload(meta.fields.files@),
                    ),
                    either(
                        piece_length_problem(meta.fields.piece_length, "torrent piece length "@),
                        v1_pieces_problem(
                            limits,
                            files_length(meta.fields),
                            meta.fields.piece_length,
                            meta.pieces@.len(),
                        ),
                    ),
                ),
            ),
        ),
        MetaKind::V2(meta) => either(
            common_problem(limits, meta.fields),
            either(
                files_problem(limits, meta.fields),
                either(
                    empty_problem(
                        files_length(meta.fields) == 0 || !has_payload(meta.fields.files@),
                    ),
                    either(
                        piece_length_problem(meta.fields.piece_length, "torrent piece length "@),
                        v2_pieces_problem(
                            limits,
                            meta.piece_count,
                            "torrent piece count does not fit in memory"@,
                            " pieces; maximum is "@,
                        ),
                    ),
                ),
            ),
        ),
        MetaKind::Hybrid { v1, v2, layout_error } => either(
            common_problem(limits, v1.fields),
            either(
                common_problem(limits, v2.fields),
                either(
                    files_problem(limits, v1.fields),
                    either(
                        files_problem(limits, v2.fields),
                        either(
                            owned_text(layout_error),
                            either(
                                empty_problem(files_length(v1.fields) == 0),
                                either(
                                    piece_length_problem(
                                        v1.fields.piece_length,
                                        "torrent piece length "@,
                                    ),
                                    either(
                                        v1_pieces_problem(
                                            limits,
                                            files_length(v1.fields),
                                            v1.fields.piece_length,
                                            v1.pieces@.len(),
                                        ),
                                        either(
                                            piece_length_problem(
                                                v2.fields.piece_length,
                                                "torrent v2 piece length "@,
                                            ),
                                            v2_pieces_problem(
                                                limits,
                                                v2.piece_count,
                                                "torrent v2 piece count does not fit in memory"@,
                                                " v2 pieces; maximum is "@,
                                            ),
                                        ),
                                    ),
                                ),
                            ),
                        ),
                    ),
                ),
            ),
        ),
    }
}

pub open spec fn torrent_meta_problem(limits: EngineLimits, meta: TorrentMeta) -> Problem {
    either(
        byte_count_problem(meta.raw@.len(), MAX_TORRENT_BYTES as nat, "torrent metainfo"@),
        kind_problem(limits, meta.kind),
    )
}

/// A torrent file is bounded, its files fill it without gaps, and its piece
/// hashes cover its payload.
pub fn validation_validate_torrent_meta(limits: &EngineLimits, meta: &TorrentMeta) -> (r: CmdResult<
    (),
>)
    ensures
        reports(r, torrent_meta_problem(*limits, *meta)),
{
    check_limit(
        meta.raw.len(),
        MAX_TORRENT_BYTES,
        join2("torrent metainfo", " contains ").as_str(),
        " bytes; maximum is ",
    )?;
    match &meta.kind {
        MetaKind::V1(meta) => {
            validation_validate_meta_common(limits, &meta.fields)?;
            let spans = spans_of(meta.fields.files.as_slice());
            let total = validation_validate_meta_files(limits, spans.as_slice())?;
            check_not_empty(total == 0 || !any_payload(meta.fields.files.as_slice()))?;
            check_piece_length(meta.fields.piece_length, "torrent piece length ")?;
            check_v1_pieces(limits, total, meta.fields.piece_length, meta.pieces.len())
        },
        MetaKind::V2(meta) => {
            validation_validate_meta_common(limits, &meta.fields)?;
            let spans = spans_of(meta.fields.files.as_slice());
            let total = validation_validate_meta_files(limits, spans.as_slice())?;
            check_not_empty(total == 0 || !any_payload(meta.fields.files.as_slice()))?;
            check_piece_length(meta.fields.piece_length, "torrent piece length ")?;
            check_v2_pieces(
                limits,
                meta.piece_count,
                "torrent piece count does not fit in memory",
                " pieces; maximum is ",
            )
        },
        MetaKind::Hybrid { v1, v2, layout_error } => {
            validation_validate_meta_common(limits, &v1.fields)?;
            validation_validate_meta_common(limits, &v2.fields)?;
            let spans = spans_of(v1.fields.files.as_slice());
            let total = validation_validate_meta_files(limits, spans.as_slice())?;
            let v2_spans = spans_of(v2.fields.files.as_slice());
            validation_validate_meta_files(limits, v2_spans.as_slice())?;
            if let Some(error) = layout_error {
                return Err(error.clone());
            }
            check_not_empty(total == 0)?;
            check_piece_length(v1.fields.piece_length, "torrent piece length ")?;
            check_v1_pieces(limits, total, v1.fields.piece_length, v1.pieces.len())?;
            check_piece_length(v2.fields.piece_length, "torrent v2 piece length ")?;
            check_v2_pieces(
                limits,
                v2.piece_count,
                "torrent v2 piece count does not fit in memory",
                " v2 pieces; maximum is ",
            )
        },
    }
}

pub open spec fn port_check() -> spec_fn(Seq<PeerAddr>, PeerAddr) -> Problem {
    |before: Seq<PeerAddr>, peer: PeerAddr|
        if peer.port == 0 {
            Some(
                "magnet direct peer at index "@ + decimal(before.len()) + " has a zero port"@,
            )
        } else {
            None
        }
}

pub open spec fn magnet_problem(limits: EngineLimits, magnet: MagnetLink) -> Problem {
    either(
        optional_text_problem(
            owned_text(magnet.display_name),
            limits.name_bytes as nat,
            "magnet display name"@,
        ),
        either(
            tracker_list_problem(limits, magnet.trackers@),
            either(
                over_limit(
                    magnet.peer_addresses@.len(),
                    limits.magnet_peers as nat,
                    "magnet contains "@,
                    " direct peers; maximum is "@,
                ),
                first_problem(magnet.peer_addresses@, port_check()),
            ),
        ),
    )
}

/// A magnet link is bounded, and each peer that it names has a port.
#[verifier::loop_isolation(false)]
pub fn validation_validate_magnet_input(limits: &EngineLimits, magnet: &MagnetLink) -> (r:
    CmdResult<()>)
    ensures
        reports(r, magnet_problem(*limits, *magnet)),
{
    validate_owned_text(&magnet.display_name, limits.name_bytes, "magnet display name")?;
    validation_validate_tracker_urls(limits, magnet.trackers.as_slice())?;
    check_limit(
        magnet.peer_addresses.len(),
        limits.magnet_peers,
        "magnet contains ",
        " direct peers; maximum is ",
    )?;
    let ghost peers = magnet.peer_addresses@;
    let mut i: usize = 0;
    assert(peers.take(0) =~= Seq::<PeerAddr>::empty());
    while i < magnet.peer_addresses.len()
        invariant
            i <= peers.len(),
            first_problem(peers.take(i as int), port_check()) is None,
        decreases peers.len() - i,
    {
        proof {
            lemma_first_problem_step(peers, i as int, port_check());
        }
        if magnet.peer_addresses[i].port == 0 {
            proof {
                lemma_first_problem_stays(peers, i + 1, port_check());
            }
            let index = count_text(i);
            return Err(
                join3("magnet direct peer at index ", index.as_str(), " has a zero port"),
            );
        }
        i = i + 1;
    }
    assert(peers.take(i as int) =~= peers);
    Ok(())
}

} // verus!
