use vstd::prelude::*;
use crate::application::{
    ApplicationId, ApplicationProjection, ApplicationProjectionRepository,
    ApplicationProjectionRepositoryError, ApplicationStatus, has_application, has_id, listed,
    updated_rows,
};
use crate::contribution::{ContributionId, Event};
use crate::contributor::Id as ContributorId;

verus! {

/// Source of fresh application ids.
pub trait UuidGenerator {
    fn new_uuid(&self) -> ApplicationId;
}

/// A consistent application table: no two rows share an id, and no two rows
/// are of the same contribution and contributor.
pub open spec fn rows_wf(rows: Seq<ApplicationProjection>) -> bool {
    forall|i: int, j: int|
        0 <= i < j < rows.len() ==> (#[trigger] rows[i]).id != (#[trigger] rows[j]).id && !rows[i].is_of(
            rows[j].contribution_id,
            rows[j].contributor_id,
        )
}

/// Exactly one row is of this contribution and contributor, and it has `status`.
pub open spec fn sole_application_is(
    rows: Seq<ApplicationProjection>,
    contribution_id: ContributionId,
    contributor_id: ContributorId,
    status: ApplicationStatus,
) -> bool {
    exists|i: int|
        0 <= i < rows.len() && (#[trigger] rows[i]).is_of(contribution_id, contributor_id)
            && rows[i].status == status && forall|j: int|
            0 <= j < rows.len() && (#[trigger] rows[j]).is_of(contribution_id, contributor_id) ==> j
                == i
}

/// The table after an existing application was applied for again: that row
/// is `Pending`, nothing else changes.
pub open spec fn reapplied_rows(
    rows: Seq<ApplicationProjection>,
    contribution_id: ContributionId,
    contributor_id: ContributorId,
) -> Seq<ApplicationProjection> {
    rows.map_values(
        |r: ApplicationProjection|
            if r.is_of(contribution_id, contributor_id) {
                r.with_status(ApplicationStatus::Pending)
            } else {
                r
            },
    )
}

/// The table after `Applied`: an existing application is reset to `Pending`;
/// otherwise a new `Pending` one with id `fresh` is added.
pub open spec fn applied_rows(
    rows: Seq<ApplicationProjection>,
    contribution_id: ContributionId,
    contributor_id: ContributorId,
    fresh: ApplicationId,
) -> Seq<ApplicationProjection> {
    if has_application(rows, contribution_id, contributor_id) {
        reapplied_rows(rows, contribution_id, contributor_id)
    } else {
        rows.push(
            ApplicationProjection {
                id: fresh,
                contribution_id,
                contributor_id,
                status: ApplicationStatus::Pending,
            },
        )
    }
}

/// A row rewritten for a change of assignee of `contribution_id`: with an
/// assignee, its application is `Accepted` and every other one `Refused`;
/// without, all are `Pending`. Rows of other contributions stay.
pub open spec fn reassigned_row(
    row: ApplicationProjection,
    contribution_id: ContributionId,
    assignee: Option<ContributorId>,
) -> ApplicationProjection {
    if row.contribution_id == contribution_id {
        match assignee {
            Some(x) => if row.contributor_id == x {
                row.with_status(ApplicationStatus::Accepted)
            } else {
                row.with_status(ApplicationStatus::Refused)
            },
            None => row.with_status(ApplicationStatus::Pending),
        }
    } else {
        row
    }
}

pub open spec fn reassigned_rows(
    rows: Seq<ApplicationProjection>,
    contribution_id: ContributionId,
    assignee: Option<ContributorId>,
) -> Seq<ApplicationProjection> {
    rows.map_values(|r: ApplicationProjection| reassigned_row(r, contribution_id, assignee))
}

/// Each row of `after` is its row of `before`, or that row rewritten as
/// `reassigned_row` says: what a rewrite interrupted by a failure leaves.
spec fn partly_reassigned(
    before: Seq<ApplicationProjection>,
    after: Seq<ApplicationProjection>,
    contribution_id: ContributionId,
    assignee: Option<ContributorId>,
) -> bool {
    &&& after.len() == before.len()
    &&& forall|j: int|
        0 <= j < before.len() ==> #[trigger] after[j] == before[j] || after[j] == reassigned_row(
            before[j],
            contribution_id,
            assignee,
        )
}

/// Whether `listing` is what listing the applications of `contribution_id`
/// may return: rows of that contribution, every one of them, in any order.
pub open spec fn valid_listing(
    rows: Seq<ApplicationProjection>,
    listing: Seq<ApplicationProjection>,
    contribution_id: ContributionId,
) -> bool {
    &&& forall|k: int|
        0 <= k < listing.len() ==> rows.contains(#[trigger] listing[k]) && listing[k].contribution_id
            == contribution_id
    &&& forall|j: int|
        0 <= j < rows.len() && (#[trigger] rows[j]).contribution_id == contribution_id
            ==> listing.contains(rows[j])
}

/// `after` is `before` with the first `n` listed applications rewritten as
/// `reassigned_row` says, and no other change.
pub open spec fn rewritten_prefix(
    before: Seq<ApplicationProjection>,
    after: Seq<ApplicationProjection>,
    listing: Seq<ApplicationProjection>,
    n: int,
    contribution_id: ContributionId,
    assignee: Option<ContributorId>,
) -> bool {
    &&& after.len() == before.len()
    &&& forall|j: int|
        0 <= j < before.len() ==> #[trigger] after[j] == if rewritten_before(listing, n, before[j]) {
            reassigned_row(before[j], contribution_id, assignee)
        } else {
            before[j]
        }
}

/// What a rewrite of the applications of a contribution leaves when it
/// fails: nothing changed (the listing failed), or the applications listed
/// before the one whose update failed rewritten, in listed order, and the
/// rest as they were.
pub open spec fn interrupted_rewrite(
    before: Seq<ApplicationProjection>,
    after: Seq<ApplicationProjection>,
    contribution_id: ContributionId,
    assignee: Option<ContributorId>,
) -> bool {
    after == before || exists|listing: Seq<ApplicationProjection>, n: int|
        valid_listing(before, listing, contribution_id) && 0 <= n < listing.len()
            && #[trigger] rewritten_prefix(before, after, listing, n, contribution_id, assignee)
}

/// The full effect of `event` on the table; for a new application, either
/// the row under a fresh id, or nothing when the minted id was taken.
pub open spec fn projection_done(
    before: Seq<ApplicationProjection>,
    after: Seq<ApplicationProjection>,
    event: Event,
) -> bool {
    match event {
        Event::Applied { id, contributor_id } => if has_application(before, id, contributor_id) {
            after == reapplied_rows(before, id, contributor_id)
        } else {
            after == before || exists|fresh: ApplicationId|
                !has_id(before, fresh) && after == applied_rows(before, id, contributor_id, fresh)
        },
        Event::Assigned { id, contributor_id } => after == reassigned_rows(
            before,
            id,
            Some(contributor_id),
        ),
        Event::Unassigned { id } => after == reassigned_rows(before, id, None),
        _ => after == before,
    }
}

/// The table after one event, `fresh` being the id minted for a new application.
pub open spec fn projected_rows(
    rows: Seq<ApplicationProjection>,
    event: Event,
    fresh: ApplicationId,
) -> Seq<ApplicationProjection> {
    match event {
        Event::Applied { id, contributor_id } => applied_rows(rows, id, contributor_id, fresh),
        Event::Assigned { id, contributor_id } => reassigned_rows(rows, id, Some(contributor_id)),
        Event::Unassigned { id } => reassigned_rows(rows, id, None),
        _ => rows,
    }
}

/// What projecting `event` may leave, depending on where the store failed:
/// nothing at all, the full effect, or for a rewrite of all applications of a
/// contribution a prefix of it in listed order.
pub open spec fn projection_outcome(
    before: Seq<ApplicationProjection>,
    after: Seq<ApplicationProjection>,
    event: Event,
) -> bool {
    match event {
        Event::Applied { id, contributor_id } => after == before || (has_application(
            before,
            id,
            contributor_id,
        ) && after == reapplied_rows(before, id, contributor_id)) || (!has_application(
            before,
            id,
            contributor_id,
        ) && exists|fresh: ApplicationId|
            !has_id(before, fresh) && after == applied_rows(before, id, contributor_id, fresh)),
        Event::Assigned { id, contributor_id } => after == reassigned_rows(
            before,
            id,
            Some(contributor_id),
        ) || interrupted_rewrite(before, after, id, Some(contributor_id)),
        Event::Unassigned { id } => after == reassigned_rows(before, id, None)
            || interrupted_rewrite(before, after, id, None),
        _ => after == before,
    }
}

/// Keeps the application read model in step with contribution events.
pub struct ApplicationProjector<R: ApplicationProjectionRepository, G: UuidGenerator> {
    pub application_projection_repository: R,
    pub uuid_generator: G,
}

impl<R: ApplicationProjectionRepository, G: UuidGenerator> ApplicationProjector<R, G> {
    pub open spec fn rows(&self) -> Seq<ApplicationProjection> {
        self.application_projection_repository.rows()
    }

    /// The store serves every call.
    pub open spec fn accepts(&self) -> bool {
        self.application_projection_repository.accepts()
    }

    pub fn new(application_projection_repository: R, uuid_generator: G) -> (r: Self)
        ensures
            r.application_projection_repository == application_projection_repository,
            r.uuid_generator == uuid_generator,
    {
        ApplicationProjector { application_projection_repository, uuid_generator }
    }

    pub fn repository(&self) -> (r: &R)
        ensures
            *r == self.application_projection_repository,
    {
        &self.application_projection_repository
    }

    /// `Applied`: resets the contributor's application to `Pending`, or
    /// creates it with a fresh id when there is none.
    pub fn on_applied(
        &mut self,
        contribution_id: &ContributionId,
        contributor_id: &ContributorId,
    ) -> (r: Result<(), ApplicationProjectionRepositoryError>)
        requires
            rows_wf(old(self).rows()),
        ensures
            rows_wf(final(self).rows()),
            r is Ok && has_application(old(self).rows(), *contribution_id, *contributor_id)
                ==> final(self).rows() == reapplied_rows(
                old(self).rows(),
                *contribution_id,
                *contributor_id,
            ),
            r is Ok && !has_application(old(self).rows(), *contribution_id, *contributor_id)
                ==> exists|fresh: ApplicationId|
                !has_id(old(self).rows(), fresh) && final(self).rows() == applied_rows(
                    old(self).rows(),
                    *contribution_id,
                    *contributor_id,
                    fresh,
                ),
            r is Err ==> final(self).rows() == old(self).rows(),
            final(self).accepts() == old(self).accepts(),
            old(self).accepts() && has_application(old(self).rows(), *contribution_id, *contributor_id)
                ==> r is Ok,
            old(self).accepts() && r is Err ==> r->Err_0 is AlreadyExist,
    {
        let ghost before = self.rows();
        let previous = self.application_projection_repository.find_by_contribution_and_contributor(
            contribution_id,
            contributor_id,
        );
        match previous {
            Err(e) => Err(e),
            Ok(Some(application)) => {
                let pending = application.as_pending();
                let r = self.application_projection_repository.update(pending);
                proof {
                    let i0 = choose|i: int| 0 <= i < before.len() && before[i] == application;
                    assert(has_application(before, *contribution_id, *contributor_id)) by {
                        assert(before[i0].is_of(*contribution_id, *contributor_id));
                    }
                    assert(updated_rows(before, pending) =~= reapplied_rows(
                        before,
                        *contribution_id,
                        *contributor_id,
                    )) by {
                        assert forall|j: int| 0 <= j < before.len() implies updated_rows(
                            before,
                            pending,
                        )[j] == reapplied_rows(before, *contribution_id, *contributor_id)[j] by {
                            if j < i0 {
                                assert(before[j].id != before[i0].id);
                            } else if j > i0 {
                                assert(before[i0].id != before[j].id);
                            }
                        }
                    }
                    lemma_reapplied_keeps_wf(before, *contribution_id, *contributor_id);
                }
                r
            },
            Ok(None) => {
                let id = self.uuid_generator.new_uuid();
                let application = ApplicationProjection::new(id, *contribution_id, *contributor_id);
                let r = self.application_projection_repository.create(application);
                proof {
                    if r is Ok {
                        assert(!has_application(before, *contribution_id, *contributor_id));
                        assert(rows_wf(before.push(application)));
                    }
                }
                r
            },
        }
    }

    /// `Assigned`: the assignee's application becomes `Accepted`, every other
    /// application to the contribution `Refused`.
    pub fn on_assigned(
        &mut self,
        contribution_id: &ContributionId,
        contributor_id: &ContributorId,
    ) -> (r: Result<(), ApplicationProjectionRepositoryError>)
        requires
            rows_wf(old(self).rows()),
        ensures
            rows_wf(final(self).rows()),
            r is Ok ==> final(self).rows() == reassigned_rows(
                old(self).rows(),
                *contribution_id,
                Some(*contributor_id),
            ),
            r is Err ==> interrupted_rewrite(
                old(self).rows(),
                final(self).rows(),
                *contribution_id,
                Some(*contributor_id),
            ),
            final(self).accepts() == old(self).accepts(),
            old(self).accepts() ==> r is Ok,
    {
        self.rewrite_applications(contribution_id, Some(*contributor_id))
    }

    /// `Unassigned`: every application to the contribution is `Pending` again.
    pub fn on_unassigned(&mut self, contribution_id: &ContributionId) -> (r: Result<
        (),
        ApplicationProjectionRepositoryError,
    >)
        requires
            rows_wf(old(self).rows()),
        ensures
            rows_wf(final(self).rows()),
            r is Ok ==> final(self).rows() == reassigned_rows(
                old(self).rows(),
                *contribution_id,
                None,
            ),
            r is Err ==> interrupted_rewrite(
                old(self).rows(),
                final(self).rows(),
                *contribution_id,
                None,
            ),
            final(self).accepts() == old(self).accepts(),
            old(self).accepts() ==> r is Ok,
    {
        self.rewrite_applications(contribution_id, None)
    }

    /// Lists the applications to a contribution and writes each back as
    /// `reassigned_row` says; stops at the first failure.
    fn rewrite_applications(
        &mut self,
        contribution_id: &ContributionId,
        assignee: Option<ContributorId>,
    ) -> (r: Result<(), ApplicationProjectionRepositoryError>)
        requires
            rows_wf(old(self).rows()),
        ensures
            rows_wf(final(self).rows()),
            r is Ok ==> final(self).rows() == reassigned_rows(
                old(self).rows(),
                *contribution_id,
                assignee,
            ),
            r is Err ==> interrupted_rewrite(
                old(self).rows(),
                final(self).rows(),
                *contribution_id,
                assignee,
            ),
            final(self).accepts() == old(self).accepts(),
            old(self).accepts() ==> r is Ok,
    {
        let ghost before = self.rows();
        let listed_applications = match self.application_projection_repository.list_by_contribution(
            contribution_id,
            None,
        ) {
            Ok(v) => v,
            Err(e) => {
                return Err(e);
            },
        };
        let mut i: usize = 0;
        while i < listed_applications.len()
            invariant
                0 <= i <= listed_applications@.len(),
                before == old(self).rows(),
                self.accepts() == old(self).accepts(),
                rows_wf(before),
                forall|k: int|
                    0 <= k < listed_applications@.len() ==> before.contains(
                        #[trigger] listed_applications@[k],
                    ) && listed(listed_applications@[k], *contribution_id, None),
                forall|j: int|
                    0 <= j < before.len() && listed(#[trigger] before[j], *contribution_id, None)
                        ==> listed_applications@.contains(before[j]),
                self.rows().len() == before.len(),
                forall|j: int|
                    0 <= j < before.len() ==> #[trigger] self.rows()[j] == if rewritten_before(
                        listed_applications@,
                        i as int,
                        before[j],
                    ) {
                        reassigned_row(before[j], *contribution_id, assignee)
                    } else {
                        before[j]
                    },
            decreases listed_applications@.len() - i,
        {
            let application = &listed_applications[i];
            let rewritten = match assignee {
                Some(x) => if application.contributor_id == x {
                    application.as_accepted()
                } else {
                    application.as_refused()
                },
                None => application.as_pending(),
            };
            let ghost current = self.rows();
            let r = self.application_projection_repository.update(rewritten);
            proof {
                let a = listed_applications@[i as int];
                let i0 = choose|w: int| 0 <= w < before.len() && before[w] == a;
                assert(rewritten == reassigned_row(a, *contribution_id, assignee));
                if r is Err {
                    assert(valid_listing(before, listed_applications@, *contribution_id)) by {
                        assert forall|j: int|
                            0 <= j < before.len() && (#[trigger] before[j]).contribution_id
                                == *contribution_id implies listed_applications@.contains(
                            before[j],
                        ) by {
                            assert(listed(before[j], *contribution_id, None));
                        }
                    }
                    assert(rewritten_prefix(
                        before,
                        self.rows(),
                        listed_applications@,
                        i as int,
                        *contribution_id,
                        assignee,
                    ));
                    assert(partly_reassigned(before, self.rows(), *contribution_id, assignee));
                    lemma_partly_reassigned_keeps_wf(before, self.rows(), *contribution_id, assignee);
                } else {
                    assert forall|j: int| 0 <= j < before.len() implies #[trigger] self.rows()[j]
                        == if rewritten_before(listed_applications@, i + 1, before[j]) {
                        reassigned_row(before[j], *contribution_id, assignee)
                    } else {
                        before[j]
                    } by {
                        assert(current[j].id == before[j].id);
                        if j == i0 {
                            assert(rewritten_before(listed_applications@, i + 1, before[j])) by {
                                assert(listed_applications@[i as int] == before[j]);
                            }
                        } else {
                            assert(before[j].id != before[i0].id);
                            if rewritten_before(listed_applications@, i + 1, before[j]) {
                                let k = choose|k: int|
                                    0 <= k < i + 1 && listed_applications@[k] == before[j];
                                assert(k != i);
                                assert(rewritten_before(listed_applications@, i as int, before[j]));
                            }
                        }
                    }
                }
            }
            if r.is_err() {
                return r;
            }
            i = i + 1;
        }
        proof {
            assert forall|j: int| 0 <= j < before.len() implies #[trigger] self.rows()[j]
                == reassigned_rows(before, *contribution_id, assignee)[j] by {
                if listed(before[j], *contribution_id, None) {
                    let k = choose|k: int|
                        0 <= k < listed_applications@.len() && listed_applications@[k] == before[j];
                    assert(rewritten_before(listed_applications@, i as int, before[j]));
                }
            }
            assert(self.rows() =~= reassigned_rows(before, *contribution_id, assignee));
            lemma_partly_reassigned_keeps_wf(before, self.rows(), *contribution_id, assignee);
        }
        Ok(())
    }

    /// Applies one event to the read model. A failure of the store is not
    /// reported: the event's effect is then lost, wholly or in part.
    pub fn project(&mut self, event: &Event)
        requires
            rows_wf(old(self).rows()),
        ensures
            rows_wf(final(self).rows()),
            projection_outcome(old(self).rows(), final(self).rows(), *event),
            final(self).accepts() == old(self).accepts(),
            old(self).accepts() ==> projection_done(old(self).rows(), final(self).rows(), *event),
    {
        let ghost before = self.rows();
        match event {
            Event::Applied { id, contributor_id } => {
                let _ = self.on_applied(id, contributor_id);
            },
            Event::Assigned { id, contributor_id } => {
                let _ = self.on_assigned(id, contributor_id);
            },
            Event::Unassigned { id } => {
                let _ = self.on_unassigned(id);
            },
            _ => {},
        }
    }
}

/// Whether `row` is among the first `n` listed applications.
pub open spec fn rewritten_before(
    listed_applications: Seq<ApplicationProjection>,
    n: int,
    row: ApplicationProjection,
) -> bool {
    exists|k: int| 0 <= k < n && listed_applications[k] == row
}

proof fn lemma_partly_reassigned_keeps_wf(
    before: Seq<ApplicationProjection>,
    after: Seq<ApplicationProjection>,
    contribution_id: ContributionId,
    assignee: Option<ContributorId>,
)
    requires
        rows_wf(before),
        partly_reassigned(before, after, contribution_id, assignee),
    ensures
        rows_wf(after),
{
    assert forall|i: int, j: int| 0 <= i < j < after.len() implies (#[trigger] after[i]).id != (
    #[trigger] after[j]).id && !after[i].is_of(after[j].contribution_id, after[j].contributor_id) by {
        assert(before[i].id != before[j].id);
        assert(after[i] == before[i] || after[i] == reassigned_row(before[i], contribution_id, assignee));
        assert(after[j] == before[j] || after[j] == reassigned_row(before[j], contribution_id, assignee));
    }
}

proof fn lemma_reapplied_keeps_wf(
    rows: Seq<ApplicationProjection>,
    contribution_id: ContributionId,
    contributor_id: ContributorId,
)
    requires
        rows_wf(rows),
    ensures
        rows_wf(reapplied_rows(rows, contribution_id, contributor_id)),
{
    let r2 = reapplied_rows(rows, contribution_id, contributor_id);
    assert forall|i: int, j: int| 0 <= i < j < r2.len() implies (#[trigger] r2[i]).id != (
    #[trigger] r2[j]).id && !r2[i].is_of(r2[j].contribution_id, r2[j].contributor_id) by {
        assert(rows[i].id != rows[j].id);
    }
}

} // verus!
