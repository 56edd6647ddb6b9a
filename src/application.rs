use vstd::prelude::*;
use crate::contribution::ContributionId;
use crate::contributor::Id as ContributorId;

verus! {

/// Identifier of an application, a UUID held as its 128-bit value.
#[derive(Clone, Copy, Debug, PartialEq, Eq, Structural, Hash, Default)]
pub struct ApplicationId {
    pub value: u128,
}

impl ApplicationId {
    pub fn from_u128(value: u128) -> (r: ApplicationId)
        ensures
            r.value == value,
    {
        ApplicationId { value }
    }
}

#[derive(Clone, Copy, Debug, PartialEq, Eq, Structural, Default)]
pub enum ApplicationStatus {
    #[default]
    Pending,
    Accepted,
    Refused,
}

/// Read model of one contributor's application to one contribution.
#[derive(Clone, Copy, Debug, PartialEq, Eq, Structural, Default)]
pub struct ApplicationProjection {
    pub id: ApplicationId,
    pub contribution_id: ContributionId,
    pub contributor_id: ContributorId,
    pub status: ApplicationStatus,
}

impl ApplicationProjection {
    pub open spec fn with_status(self, status: ApplicationStatus) -> ApplicationProjection {
        ApplicationProjection { status, ..self }
    }

    /// Whether this is the application of `contributor_id` to `contribution_id`.
    pub open spec fn is_of(self, contribution_id: ContributionId, contributor_id: ContributorId) -> bool {
        self.contribution_id == contribution_id && self.contributor_id == contributor_id
    }

    /// A new application, `Pending`.
    pub fn new(
        id: ApplicationId,
        contribution_id: ContributionId,
        contributor_id: ContributorId,
    ) -> (r: ApplicationProjection)
        ensures
            r == (ApplicationProjection {
                id,
                contribution_id,
                contributor_id,
                status: ApplicationStatus::Pending,
            }),
    {
        ApplicationProjection { id, contribution_id, contributor_id, status: ApplicationStatus::Pending }
    }

    pub fn new_with_status(
        id: ApplicationId,
        contribution_id: ContributionId,
        contributor_id: ContributorId,
        status: ApplicationStatus,
    ) -> (r: ApplicationProjection)
        ensures
            r == (ApplicationProjection { id, contribution_id, contributor_id, status }),
    {
        ApplicationProjection { id, contribution_id, contributor_id, status }
    }

    pub fn id(&self) -> (r: &ApplicationId)
        ensures
            *r == self.id,
    {
        &self.id
    }

    pub fn contribution_id(&self) -> (r: &ContributionId)
        ensures
            *r == self.contribution_id,
    {
        &self.contribution_id
    }

    pub fn contributor_id(&self) -> (r: &ContributorId)
        ensures
            *r == self.contributor_id,
    {
        &self.contributor_id
    }

    pub fn status(&self) -> (r: &ApplicationStatus)
        ensures
            *r == self.status,
    {
        &self.status
    }

    /// The same application, `Pending`.
    pub fn as_pending(&self) -> (r: ApplicationProjection)
        ensures
            r == self.with_status(ApplicationStatus::Pending),
    {
        ApplicationProjection { status: ApplicationStatus::Pending, ..*self }
    }

    /// The same application, `Accepted`.
    pub fn as_accepted(&self) -> (r: ApplicationProjection)
        ensures
            r == self.with_status(ApplicationStatus::Accepted),
    {
        ApplicationProjection { status: ApplicationStatus::Accepted, ..*self }
    }

    /// The same application, `Refused`.
    pub fn as_refused(&self) -> (r: ApplicationProjection)
        ensures
            r == self.with_status(ApplicationStatus::Refused),
    {
        ApplicationProjection { status: ApplicationStatus::Refused, ..*self }
    }
}

#[derive(Clone, Debug, PartialEq, Eq)]
pub enum ApplicationProjectionRepositoryError {
    NotFound,
    AlreadyExist(String),
    InvalidEntity(String),
    Infrastructure(String),
}

/// How a relational store reports a failure.
#[derive(Clone, Debug, PartialEq, Eq)]
pub enum DatabaseError {
    /// A statement broke a uniqueness constraint.
    UniqueViolation(String),
    /// A statement matched no row.
    NotFound,
    /// Any other failure: of a statement, of the connection, of the pool.
    Other(String),
}

impl ApplicationProjectionRepositoryError {
    /// The repository error for a failure of the store: a broken uniqueness
    /// constraint means the application exists already.
    pub fn from_database_error(error: DatabaseError) -> (r: ApplicationProjectionRepositoryError)
        ensures
            error matches DatabaseError::UniqueViolation(m) ==> r
                == ApplicationProjectionRepositoryError::AlreadyExist(m),
            error is NotFound ==> r == ApplicationProjectionRepositoryError::NotFound,
            error matches DatabaseError::Other(m) ==> r
                == ApplicationProjectionRepositoryError::Infrastructure(m),
    {
        match error {
            DatabaseError::UniqueViolation(m) => ApplicationProjectionRepositoryError::AlreadyExist(m),
            DatabaseError::NotFound => ApplicationProjectionRepositoryError::NotFound,
            DatabaseError::Other(m) => ApplicationProjectionRepositoryError::Infrastructure(m),
        }
    }
}

/// The rows of an application table after `application` was written over the
/// row that has its id (no row changes if none has it).
pub open spec fn updated_rows(
    rows: Seq<ApplicationProjection>,
    application: ApplicationProjection,
) -> Seq<ApplicationProjection> {
    rows.map_values(
        |r: ApplicationProjection|
            if r.id == application.id {
                application
            } else {
                r
            },
    )
}

/// Whether a row of `rows` has the id `id`.
pub open spec fn has_id(rows: Seq<ApplicationProjection>, id: ApplicationId) -> bool {
    exists|i: int| 0 <= i < rows.len() && (#[trigger] rows[i]).id == id
}

/// Whether `application` belongs in a listing of `contribution_id`, narrowed to
/// `contributor_id` when one is given.
pub open spec fn listed(
    application: ApplicationProjection,
    contribution_id: ContributionId,
    contributor_id: Option<ContributorId>,
) -> bool {
    application.contribution_id == contribution_id && match contributor_id {
        Some(k) => application.contributor_id == k,
        None => true,
    }
}

pub open spec fn has_application(
    rows: Seq<ApplicationProjection>,
    contribution_id: ContributionId,
    contributor_id: ContributorId,
) -> bool {
    exists|i: int| 0 <= i < rows.len() && (#[trigger] rows[i]).is_of(contribution_id, contributor_id)
}

/// Store of application projections, seen as a table of rows.
///
/// Each operation may fail; one that fails leaves the rows as they were.
/// `accepts` says that the store serves every call (it is reachable and
/// healthy); such a store fails only a `create` that a uniqueness constraint
/// forbids, and it keeps serving.
///
/// `rows` and `accepts` are the store's model: an implementation checked by
/// Verus defines both. Their default bodies exist only so that code outside
/// Verus can implement the trait; an implementation that kept them could not
/// be verified against these contracts.
pub trait ApplicationProjectionRepository {
    closed spec fn rows(&self) -> Seq<ApplicationProjection> {
        Seq::empty()
    }

    closed spec fn accepts(&self) -> bool {
        false
    }

    /// Adds a row; fails if a row with the same id, or of the same
    /// contribution and contributor, is there.
    fn create(&mut self, application: ApplicationProjection) -> (r: Result<
        (),
        ApplicationProjectionRepositoryError,
    >)
        ensures
            final(self).accepts() == old(self).accepts(),
            r is Ok ==> !has_id(old(self).rows(), application.id)
                && final(self).rows() == old(self).rows().push(application),
            r is Err ==> final(self).rows() == old(self).rows(),
            old(self).accepts() ==> (r is Ok <==> (!has_id(old(self).rows(), application.id)
                && !has_application(
                old(self).rows(),
                application.contribution_id,
                application.contributor_id,
            ))),
            old(self).accepts() && r is Err ==> r->Err_0 is AlreadyExist,
    ;

    /// Writes `application` over the row with its id.
    fn update(&mut self, application: ApplicationProjection) -> (r: Result<
        (),
        ApplicationProjectionRepositoryError,
    >)
        ensures
            final(self).accepts() == old(self).accepts(),
            r is Ok ==> final(self).rows() == updated_rows(old(self).rows(), application),
            r is Err ==> final(self).rows() == old(self).rows(),
            old(self).accepts() ==> r is Ok,
    ;

    fn find(&self, id: &ApplicationId) -> (r: Result<
        Option<ApplicationProjection>,
        ApplicationProjectionRepositoryError,
    >)
        ensures
            r matches Ok(Some(a)) ==> self.rows().contains(a) && a.id == *id,
            r matches Ok(None) ==> !has_id(self.rows(), *id),
            self.accepts() ==> r is Ok,
    ;

    fn find_by_contribution_and_contributor(
        &self,
        contribution_id: &ContributionId,
        contributor_id: &ContributorId,
    ) -> (r: Result<Option<ApplicationProjection>, ApplicationProjectionRepositoryError>)
        ensures
            r matches Ok(Some(a)) ==> self.rows().contains(a) && a.is_of(
                *contribution_id,
                *contributor_id,
            ),
            r matches Ok(None) ==> !has_application(self.rows(), *contribution_id, *contributor_id),
            self.accepts() ==> r is Ok,
    ;

    /// The rows of a contribution, narrowed to one contributor when one is
    /// given, in an order the store chooses.
    fn list_by_contribution(
        &self,
        contribution_id: &ContributionId,
        contributor_id: Option<ContributorId>,
    ) -> (r: Result<Vec<ApplicationProjection>, ApplicationProjectionRepositoryError>)
        ensures
            r matches Ok(v) ==> {
                &&& forall|i: int|
                    0 <= i < v.len() ==> self.rows().contains(#[trigger] v@[i]) && listed(
                        v@[i],
                        *contribution_id,
                        contributor_id,
                    )
                &&& forall|j: int|
                    0 <= j < self.rows().len() && listed(
                        #[trigger] self.rows()[j],
                        *contribution_id,
                        contributor_id,
                    ) ==> v@.contains(self.rows()[j])
            },
            self.accepts() ==> r is Ok,
    ;

    /// The rows of a contributor, or every row when none is given.
    fn list_by_contributor(&self, contributor_id: Option<ContributorId>) -> (r: Result<
        Vec<ApplicationProjection>,
        ApplicationProjectionRepositoryError,
    >)
        ensures
            r matches Ok(v) ==> {
                &&& forall|i: int|
                    0 <= i < v.len() ==> self.rows().contains(#[trigger] v@[i]) && match contributor_id {
                        Some(k) => v@[i].contributor_id == k,
                        None => true,
                    }
                &&& forall|j: int|
                    0 <= j < self.rows().len() && match contributor_id {
                        Some(k) => (#[trigger] self.rows()[j]).contributor_id == k,
                        None => true,
                    } ==> v@.contains(self.rows()[j])
            },
            self.accepts() ==> r is Ok,
    ;
}

} // verus!
