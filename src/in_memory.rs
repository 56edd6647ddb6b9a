use vstd::prelude::*;
use crate::application::{
    ApplicationId, ApplicationProjection, ApplicationProjectionRepository,
    ApplicationProjectionRepositoryError, has_application, has_id, listed,
    updated_rows,
};
use crate::contribution::ContributionId;
use crate::contributor::Id as ContributorId;

verus! {

/// An application store held in memory, rows in order of creation. Like the
/// relational store it stands for, it refuses a second row with the same id
/// or for the same contribution and contributor.
pub struct InMemoryApplicationRepository {
    rows: Vec<ApplicationProjection>,
}

impl InMemoryApplicationRepository {
    pub fn new() -> (r: InMemoryApplicationRepository)
        ensures
            r.rows() == Seq::<ApplicationProjection>::empty(),
    {
        InMemoryApplicationRepository { rows: Vec::new() }
    }

    /// The rows, in order of creation.
    pub fn all(&self) -> (r: &Vec<ApplicationProjection>)
        ensures
            r@ == self.rows(),
    {
        &self.rows
    }

    /// Removes every row.
    pub fn clear(&mut self)
        ensures
            final(self).rows() == Seq::<ApplicationProjection>::empty(),
    {
        self.rows = Vec::new();
    }

    /// Index of the first row of this contribution and contributor, if any.
    fn position_of_pair(
        &self,
        contribution_id: &ContributionId,
        contributor_id: &ContributorId,
    ) -> (r: Option<usize>)
        ensures
            r matches Some(i) ==> i < self.rows@.len() && self.rows@[i as int].is_of(
                *contribution_id,
                *contributor_id,
            ),
            r is None ==> forall|j: int|
                0 <= j < self.rows@.len() ==> !(#[trigger] self.rows@[j]).is_of(
                    *contribution_id,
                    *contributor_id,
                ),
    {
        let mut i: usize = 0;
        while i < self.rows.len()
            invariant
                0 <= i <= self.rows@.len(),
                forall|j: int|
                    0 <= j < i ==> !(#[trigger] self.rows@[j]).is_of(
                        *contribution_id,
                        *contributor_id,
                    ),
            decreases self.rows@.len() - i,
        {
            if self.rows[i].contribution_id == *contribution_id && self.rows[i].contributor_id
                == *contributor_id {
                return Some(i);
            }
            i = i + 1;
        }
        None
    }

    /// Index of the first row with this id, if any.
    fn position_of_id(&self, id: &ApplicationId) -> (r: Option<usize>)
        ensures
            r matches Some(i) ==> i < self.rows@.len() && self.rows@[i as int].id == *id,
            r is None ==> !has_id(self.rows@, *id),
    {
        let mut i: usize = 0;
        while i < self.rows.len()
            invariant
                0 <= i <= self.rows@.len(),
                forall|j: int| 0 <= j < i ==> (#[trigger] self.rows@[j]).id != *id,
            decreases self.rows@.len() - i,
        {
            if self.rows[i].id == *id {
                return Some(i);
            }
            i = i + 1;
        }
        None
    }
}

impl ApplicationProjectionRepository for InMemoryApplicationRepository {
    closed spec fn rows(&self) -> Seq<ApplicationProjection> {
        self.rows@
    }

    /// Memory always serves.
    closed spec fn accepts(&self) -> bool {
        true
    }

    fn create(&mut self, application: ApplicationProjection) -> (r: Result<
        (),
        ApplicationProjectionRepositoryError,
    >)
        ensures
            r is Ok <==> (!has_id(old(self).rows(), application.id) && !has_application(
                old(self).rows(),
                application.contribution_id,
                application.contributor_id,
            )),
            r is Err ==> r->Err_0 is AlreadyExist,
    {
        if self.position_of_id(&application.id).is_some() {
            return Err(
                ApplicationProjectionRepositoryError::AlreadyExist(
                    String::from_str("an application with this id exists"),
                ),
            );
        }
        if self.position_of_pair(&application.contribution_id, &application.contributor_id).is_some() {
            return Err(
                ApplicationProjectionRepositoryError::AlreadyExist(
                    String::from_str("this contributor already applied to this contribution"),
                ),
            );
        }
        self.rows.push(application);
        Ok(())
    }

    fn update(&mut self, application: ApplicationProjection) -> (r: Result<
        (),
        ApplicationProjectionRepositoryError,
    >)
        ensures
            r is Ok,
    {
        let ghost before = self.rows@;
        let mut i: usize = 0;
        while i < self.rows.len()
            invariant
                0 <= i <= self.rows@.len(),
                self.rows@.len() == before.len(),
                forall|j: int|
                    0 <= j < i ==> #[trigger] self.rows@[j] == updated_rows(before, application)[j],
                forall|j: int| i <= j < before.len() ==> #[trigger] self.rows@[j] == before[j],
            decreases self.rows@.len() - i,
        {
            if self.rows[i].id == application.id {
                self.rows.set(i, application);
            }
            i = i + 1;
        }
        assert(self.rows@ =~= updated_rows(before, application));
        Ok(())
    }

    fn find(&self, id: &ApplicationId) -> (r: Result<
        Option<ApplicationProjection>,
        ApplicationProjectionRepositoryError,
    >)
        ensures
            r is Ok,
    {
        match self.position_of_id(id) {
            Some(i) => {
                assert(self.rows@.contains(self.rows@[i as int]));
                Ok(Some(self.rows[i]))
            },
            None => Ok(None),
        }
    }

    fn find_by_contribution_and_contributor(
        &self,
        contribution_id: &ContributionId,
        contributor_id: &ContributorId,
    ) -> (r: Result<Option<ApplicationProjection>, ApplicationProjectionRepositoryError>)
        ensures
            r is Ok,
    {
        match self.position_of_pair(contribution_id, contributor_id) {
            Some(i) => {
                assert(self.rows@.contains(self.rows@[i as int]));
                Ok(Some(self.rows[i]))
            },
            None => Ok(None),
        }
    }

    fn list_by_contribution(
        &self,
        contribution_id: &ContributionId,
        contributor_id: Option<ContributorId>,
    ) -> (r: Result<Vec<ApplicationProjection>, ApplicationProjectionRepositoryError>)
        ensures
            r matches Ok(v) && v@ == self.rows().filter(
                |a: ApplicationProjection| listed(a, *contribution_id, contributor_id),
            ),
    {
        let mut found: Vec<ApplicationProjection> = Vec::new();
        let mut i: usize = 0;
        while i < self.rows.len()
            invariant
                0 <= i <= self.rows@.len(),
                found@ == self.rows@.subrange(0, i as int).filter(
                    |a: ApplicationProjection| listed(a, *contribution_id, contributor_id),
                ),
            decreases self.rows@.len() - i,
        {
            let a = self.rows[i];
            let keep = a.contribution_id == *contribution_id && match contributor_id {
                Some(k) => a.contributor_id == k,
                None => true,
            };
            proof {
                let f = |a: ApplicationProjection| listed(a, *contribution_id, contributor_id);
                assert(self.rows@.subrange(0, i + 1).drop_last() =~= self.rows@.subrange(
                    0,
                    i as int,
                ));
                reveal(Seq::filter);
                assert(self.rows@.subrange(0, i + 1).last() == a);
                assert(self.rows@.subrange(0, i + 1).filter(f) == if f(a) {
                    self.rows@.subrange(0, i as int).filter(f).push(a)
                } else {
                    self.rows@.subrange(0, i as int).filter(f)
                });
            }
            if keep {
                found.push(a);
            }
            i = i + 1;
        }
        proof {
            let f = |a: ApplicationProjection| listed(a, *contribution_id, contributor_id);
            assert(self.rows@.subrange(0, self.rows@.len() as int) =~= self.rows@);
            assert forall|j: int| 0 <= j < found@.len() implies self.rows@.contains(
                #[trigger] found@[j],
            ) && listed(found@[j], *contribution_id, contributor_id) by {
                self.rows@.lemma_filter_pred(f, j);
                assert(found@.contains(found@[j]));
                self.rows@.lemma_filter_contains_rev(f, found@[j]);
            }
            assert forall|j: int|
                0 <= j < self.rows@.len() && listed(
                    #[trigger] self.rows@[j],
                    *contribution_id,
                    contributor_id,
                ) implies found@.contains(self.rows@[j]) by {
                self.rows@.lemma_filter_contains(f, j);
            }
        }
        Ok(found)
    }

    fn list_by_contributor(&self, contributor_id: Option<ContributorId>) -> (r: Result<
        Vec<ApplicationProjection>,
        ApplicationProjectionRepositoryError,
    >)
        ensures
            r matches Ok(v) && v@ == self.rows().filter(
                |a: ApplicationProjection| of_contributor(a, contributor_id),
            ),
    {
        let ghost f = |a: ApplicationProjection| of_contributor(a, contributor_id);
        let mut found: Vec<ApplicationProjection> = Vec::new();
        let mut i: usize = 0;
        while i < self.rows.len()
            invariant
                0 <= i <= self.rows@.len(),
                f == (|a: ApplicationProjection| of_contributor(a, contributor_id)),
                found@ == self.rows@.subrange(0, i as int).filter(f),
            decreases self.rows@.len() - i,
        {
            let a = self.rows[i];
            let keep = match contributor_id {
                Some(k) => a.contributor_id == k,
                None => true,
            };
            proof {
                reveal(Seq::filter);
                assert(self.rows@.subrange(0, i + 1).drop_last() =~= self.rows@.subrange(
                    0,
                    i as int,
                ));
                assert(self.rows@.subrange(0, i + 1).last() == a);
            }
            if keep {
                found.push(a);
            }
            i = i + 1;
        }
        proof {
            assert(self.rows@.subrange(0, self.rows@.len() as int) =~= self.rows@);
            assert forall|j: int| 0 <= j < found@.len() implies self.rows@.contains(
                #[trigger] found@[j],
            ) && of_contributor(found@[j], contributor_id) by {
                self.rows@.lemma_filter_pred(f, j);
                assert(found@.contains(found@[j]));
                self.rows@.lemma_filter_contains_rev(f, found@[j]);
            }
            assert forall|j: int|
                0 <= j < self.rows@.len() && of_contributor(
                    #[trigger] self.rows@[j],
                    contributor_id,
                ) implies found@.contains(self.rows@[j]) by {
                self.rows@.lemma_filter_contains(f, j);
            }
        }
        Ok(found)
    }
}

/// Whether `application` is of `contributor_id`, any application when none is given.
pub open spec fn of_contributor(
    application: ApplicationProjection,
    contributor_id: Option<ContributorId>,
) -> bool {
    match contributor_id {
        Some(k) => application.contributor_id == k,
        None => true,
    }
}

} // verus!
