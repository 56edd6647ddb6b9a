use vstd::prelude::*;
use crate::application::{
    ApplicationId, ApplicationProjection, ApplicationStatus, has_application, has_id,
};
use crate::contribution::{ContributionId, Event};
use crate::contributor::Id as ContributorId;
use crate::projector::{
    applied_rows, projected_rows, reapplied_rows, reassigned_rows, rows_wf,
    sole_application_is,
};

verus! {

/// The table after `Applied` events of contribution `contribution_id` by
/// `contributors`, in order, the i-th minting `fresh[i]` if it creates an
/// application.
pub open spec fn applied_in_turn(
    rows: Seq<ApplicationProjection>,
    contribution_id: ContributionId,
    contributors: Seq<ContributorId>,
    fresh: Seq<ApplicationId>,
) -> Seq<ApplicationProjection>
    decreases contributors.len(),
{
    if contributors.len() == 0 {
        rows
    } else {
        applied_rows(
            applied_in_turn(rows, contribution_id, contributors.drop_last(), fresh.drop_last()),
            contribution_id,
            contributors.last(),
            fresh.last(),
        )
    }
}

proof fn lemma_applied_step(
    rows: Seq<ApplicationProjection>,
    contribution_id: ContributionId,
    contributor_id: ContributorId,
    fresh: ApplicationId,
)
    requires
        rows_wf(rows),
        !has_id(rows, fresh),
    ensures
        rows_wf(applied_rows(rows, contribution_id, contributor_id, fresh)),
        sole_application_is(
            applied_rows(rows, contribution_id, contributor_id, fresh),
            contribution_id,
            contributor_id,
            ApplicationStatus::Pending,
        ),
        forall|j: int|
            0 <= j < applied_rows(rows, contribution_id, contributor_id, fresh).len() ==> has_id(
                rows,
                (#[trigger] applied_rows(rows, contribution_id, contributor_id, fresh)[j]).id,
            ) || applied_rows(rows, contribution_id, contributor_id, fresh)[j].id == fresh,
{
    let r2 = applied_rows(rows, contribution_id, contributor_id, fresh);
    if has_application(rows, contribution_id, contributor_id) {
        let i0 = choose|i: int| 0 <= i < rows.len() && (#[trigger] rows[i]).is_of(contribution_id, contributor_id);
        assert forall|i: int, j: int| 0 <= i < j < r2.len() implies (#[trigger] r2[i]).id != (
        #[trigger] r2[j]).id && !r2[i].is_of(r2[j].contribution_id, r2[j].contributor_id) by {
            assert(rows[i].id != rows[j].id);
        }
        assert forall|j: int|
            0 <= j < r2.len() && (#[trigger] r2[j]).is_of(contribution_id, contributor_id) implies j == i0 by {
            if j < i0 {
                assert(rows[j].id != rows[i0].id);
            } else if j > i0 {
                assert(rows[i0].id != rows[j].id);
            }
        }
        assert(r2[i0].is_of(contribution_id, contributor_id));
        assert forall|j: int| 0 <= j < r2.len() implies has_id(rows, (#[trigger] r2[j]).id) || r2[j].id == fresh by {
            assert(rows[j].id == r2[j].id);
        }
    } else {
        let n = rows.len() as int;
        assert(r2[n].is_of(contribution_id, contributor_id));
        assert forall|j: int|
            0 <= j < r2.len() && (#[trigger] r2[j]).is_of(contribution_id, contributor_id) implies j == n by {
            if j < n {
                assert(rows[j] == r2[j]);
            }
        }
        assert forall|i: int, j: int| 0 <= i < j < r2.len() implies (#[trigger] r2[i]).id != (
        #[trigger] r2[j]).id && !r2[i].is_of(r2[j].contribution_id, r2[j].contributor_id) by {
            if j == n {
                assert(rows[i] == r2[i]);
            }
        }
        assert forall|j: int| 0 <= j < r2.len() implies has_id(rows, (#[trigger] r2[j]).id) || r2[j].id == fresh by {
            if j < n {
                assert(rows[j] == r2[j]);
            }
        }
    }
}

proof fn lemma_applied_keeps_others(
    rows: Seq<ApplicationProjection>,
    contribution_id: ContributionId,
    contributor_id: ContributorId,
    fresh: ApplicationId,
    other: ContributorId,
    status: ApplicationStatus,
)
    requires
        other != contributor_id,
        sole_application_is(rows, contribution_id, other, status),
    ensures
        sole_application_is(
            applied_rows(rows, contribution_id, contributor_id, fresh),
            contribution_id,
            other,
            status,
        ),
{
    let r2 = applied_rows(rows, contribution_id, contributor_id, fresh);
    let i0 = choose|i: int|
        0 <= i < rows.len() && (#[trigger] rows[i]).is_of(contribution_id, other) && rows[i].status
            == status && forall|j: int|
            0 <= j < rows.len() && (#[trigger] rows[j]).is_of(contribution_id, other) ==> j == i;
    assert(r2[i0] == rows[i0]);
    assert forall|j: int|
        0 <= j < r2.len() && (#[trigger] r2[j]).is_of(contribution_id, other) implies j == i0 by {
        if j < rows.len() {
            assert(rows[j].is_of(contribution_id, other));
        }
    }
}

/// Applying for a contribution, each contributor in turn, leaves each of them
/// with exactly one application to it, `Pending`, provided the ids minted
/// for new applications are fresh.
pub proof fn lemma_each_applicant_has_one_pending_application(
    rows: Seq<ApplicationProjection>,
    contribution_id: ContributionId,
    contributors: Seq<ContributorId>,
    fresh: Seq<ApplicationId>,
)
    requires
        rows_wf(rows),
        fresh.len() == contributors.len(),
        forall|i: int, j: int| 0 <= i < j < fresh.len() ==> fresh[i] != fresh[j],
        forall|i: int| 0 <= i < fresh.len() ==> !has_id(rows, #[trigger] fresh[i]),
    ensures
        rows_wf(applied_in_turn(rows, contribution_id, contributors, fresh)),
        forall|i: int|
            0 <= i < contributors.len() ==> sole_application_is(
                applied_in_turn(rows, contribution_id, contributors, fresh),
                contribution_id,
                #[trigger] contributors[i],
                ApplicationStatus::Pending,
            ),
        forall|j: int|
            0 <= j < applied_in_turn(rows, contribution_id, contributors, fresh).len() ==> has_id(
                rows,
                (#[trigger] applied_in_turn(rows, contribution_id, contributors, fresh)[j]).id,
            ) || fresh.contains(applied_in_turn(rows, contribution_id, contributors, fresh)[j].id),
    decreases contributors.len(),
{
    if contributors.len() > 0 {
        let ks = contributors.drop_last();
        let fs = fresh.drop_last();
        let k = contributors.last();
        let f = fresh.last();
        let n = contributors.len() - 1;
        assert forall|i: int| 0 <= i < fs.len() implies !has_id(rows, #[trigger] fs[i]) by {
            assert(fs[i] == fresh[i]);
        }
        lemma_each_applicant_has_one_pending_application(rows, contribution_id, ks, fs);
        let prev = applied_in_turn(rows, contribution_id, ks, fs);
        assert(!has_id(prev, f)) by {
            if has_id(prev, f) {
                let j = choose|j: int| 0 <= j < prev.len() && (#[trigger] prev[j]).id == f;
                assert(has_id(rows, prev[j].id) || fs.contains(prev[j].id));
                if fs.contains(prev[j].id) {
                    let w = choose|w: int| 0 <= w < fs.len() && fs[w] == prev[j].id;
                    assert(fresh[w] == fresh[n]);
                } else {
                    assert(!has_id(rows, fresh[n]));
                }
            }
        }
        lemma_applied_step(prev, contribution_id, k, f);
        let res = applied_in_turn(rows, contribution_id, contributors, fresh);
        assert forall|i: int| 0 <= i < contributors.len() implies sole_application_is(
            res,
            contribution_id,
            #[trigger] contributors[i],
            ApplicationStatus::Pending,
        ) by {
            if i < n && contributors[i] != k {
                assert(ks[i] == contributors[i]);
                lemma_applied_keeps_others(prev, contribution_id, k, f, contributors[i], ApplicationStatus::Pending);
            }
        }
        assert forall|j: int| 0 <= j < res.len() implies has_id(rows, (#[trigger] res[j]).id)
            || fresh.contains(res[j].id) by {
            if res[j].id == f {
                assert(fresh[n] == f);
            } else {
                let w = choose|w: int| 0 <= w < prev.len() && (#[trigger] prev[w]).id == res[j].id;
                if !has_id(rows, prev[w].id) {
                    let v = choose|v: int| 0 <= v < fs.len() && fs[v] == prev[w].id;
                    assert(fresh[v] == fs[v]);
                }
            }
        }
    }
}

/// Applying again for a contribution one already applied to creates nothing:
/// the same application, under the same id, is `Pending` again (from
/// `Refused` as from any status).
pub proof fn lemma_reapplying_resets_to_pending(
    rows: Seq<ApplicationProjection>,
    contribution_id: ContributionId,
    contributor_id: ContributorId,
    fresh: ApplicationId,
)
    requires
        rows_wf(rows),
        has_application(rows, contribution_id, contributor_id),
    ensures
        applied_rows(rows, contribution_id, contributor_id, fresh).len() == rows.len(),
        forall|j: int|
            0 <= j < rows.len() ==> (#[trigger] applied_rows(
                rows,
                contribution_id,
                contributor_id,
                fresh,
            )[j]).id == rows[j].id,
        sole_application_is(
            applied_rows(rows, contribution_id, contributor_id, fresh),
            contribution_id,
            contributor_id,
            ApplicationStatus::Pending,
        ),
{
    let r2 = applied_rows(rows, contribution_id, contributor_id, fresh);
    let i0 = choose|i: int| 0 <= i < rows.len() && (#[trigger] rows[i]).is_of(contribution_id, contributor_id);
    assert(r2[i0].is_of(contribution_id, contributor_id));
    assert forall|j: int|
        0 <= j < r2.len() && (#[trigger] r2[j]).is_of(contribution_id, contributor_id) implies j == i0 by {
        if j < i0 {
            assert(rows[j].id != rows[i0].id);
        } else if j > i0 {
            assert(rows[i0].id != rows[j].id);
        }
    }
}

/// After `Assigned`, among the applications to the contribution exactly the
/// assignee's is `Accepted` (if the assignee applied) and every other one is
/// `Refused`, whatever their status was; other contributions are untouched.
pub proof fn lemma_assignment_accepts_only_the_assignee(
    rows: Seq<ApplicationProjection>,
    contribution_id: ContributionId,
    assignee: ContributorId,
)
    requires
        rows_wf(rows),
    ensures
        reassigned_rows(rows, contribution_id, Some(assignee)).len() == rows.len(),
        forall|j: int|
            0 <= j < rows.len() && rows[j].contribution_id == contribution_id ==> (#[trigger] reassigned_rows(
                rows,
                contribution_id,
                Some(assignee),
            )[j]).status == if rows[j].contributor_id == assignee {
                ApplicationStatus::Accepted
            } else {
                ApplicationStatus::Refused
            },
        forall|j: int|
            0 <= j < rows.len() && rows[j].contribution_id != contribution_id ==> #[trigger] reassigned_rows(
                rows,
                contribution_id,
                Some(assignee),
            )[j] == rows[j],
        has_application(rows, contribution_id, assignee) ==> sole_application_is(
            reassigned_rows(rows, contribution_id, Some(assignee)),
            contribution_id,
            assignee,
            ApplicationStatus::Accepted,
        ),
        forall|i: int, j: int|
            0 <= i < rows.len() && 0 <= j < rows.len() && (#[trigger] reassigned_rows(
                rows,
                contribution_id,
                Some(assignee),
            )[i]).contribution_id == contribution_id && (#[trigger] reassigned_rows(
                rows,
                contribution_id,
                Some(assignee),
            )[j]).contribution_id == contribution_id && reassigned_rows(
                rows,
                contribution_id,
                Some(assignee),
            )[i].status == ApplicationStatus::Accepted && reassigned_rows(
                rows,
                contribution_id,
                Some(assignee),
            )[j].status == ApplicationStatus::Accepted ==> i == j,
{
    let r2 = reassigned_rows(rows, contribution_id, Some(assignee));
    assert forall|i: int, j: int|
        0 <= i < rows.len() && 0 <= j < rows.len() && (#[trigger] r2[i]).contribution_id
            == contribution_id && (#[trigger] r2[j]).contribution_id == contribution_id
            && r2[i].status == ApplicationStatus::Accepted && r2[j].status
            == ApplicationStatus::Accepted implies i == j by {
        if i < j {
            assert(!rows[i].is_of(rows[j].contribution_id, rows[j].contributor_id));
        } else if j < i {
            assert(!rows[j].is_of(rows[i].contribution_id, rows[i].contributor_id));
        }
    }
    if has_application(rows, contribution_id, assignee) {
        let i0 = choose|i: int| 0 <= i < rows.len() && (#[trigger] rows[i]).is_of(contribution_id, assignee);
        assert(r2[i0].is_of(contribution_id, assignee));
        assert forall|j: int|
            0 <= j < r2.len() && (#[trigger] r2[j]).is_of(contribution_id, assignee) implies j == i0 by {
            if j < i0 {
                assert(rows[j].id != rows[i0].id);
            } else if j > i0 {
                assert(rows[i0].id != rows[j].id);
            }
        }
    }
}

/// After `Unassigned`, every application to the contribution is `Pending`,
/// whatever its status was; nothing else changes.
pub proof fn lemma_unassignment_makes_all_pending(
    rows: Seq<ApplicationProjection>,
    contribution_id: ContributionId,
)
    ensures
        reassigned_rows(rows, contribution_id, None).len() == rows.len(),
        forall|j: int|
            0 <= j < rows.len() && rows[j].contribution_id == contribution_id ==> #[trigger] reassigned_rows(
                rows,
                contribution_id,
                None,
            )[j] == rows[j].with_status(ApplicationStatus::Pending),
        forall|j: int|
            0 <= j < rows.len() && rows[j].contribution_id != contribution_id ==> #[trigger] reassigned_rows(
                rows,
                contribution_id,
                None,
            )[j] == rows[j],
{
}

/// Projecting the same `Applied`, `Assigned` or `Unassigned` event a second
/// time changes nothing more: no application is duplicated, no status drifts.
pub proof fn lemma_projecting_twice_is_projecting_once(
    rows: Seq<ApplicationProjection>,
    event: Event,
    fresh: ApplicationId,
    fresh_again: ApplicationId,
)
    ensures
        projected_rows(projected_rows(rows, event, fresh), event, fresh_again) == projected_rows(
            rows,
            event,
            fresh,
        ),
{
    let once = projected_rows(rows, event, fresh);
    match event {
        Event::Applied { id, contributor_id } => {
            if has_application(rows, id, contributor_id) {
                let i0 = choose|i: int| 0 <= i < rows.len() && (#[trigger] rows[i]).is_of(id, contributor_id);
                assert(once[i0].is_of(id, contributor_id));
                assert(reapplied_rows(once, id, contributor_id) =~= once);
            } else {
                let n = rows.len() as int;
                assert(once[n].is_of(id, contributor_id));
                assert(reapplied_rows(once, id, contributor_id) =~= once) by {
                    assert forall|j: int| 0 <= j < once.len() implies reapplied_rows(once, id, contributor_id)[j] == once[j] by {
                        if j < n {
                            assert(once[j] == rows[j]);
                        }
                    }
                }
            }
        },
        Event::Assigned { id, contributor_id } => {
            assert(reassigned_rows(once, id, Some(contributor_id)) =~= once);
        },
        Event::Unassigned { id } => {
            assert(reassigned_rows(once, id, None) =~= once);
        },
        _ => {},
    }
}

} // verus!
