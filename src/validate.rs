use vstd::prelude::*;
use crate::application::ApplicationProjectionRepositoryError;
use crate::contribution::{ContributionId, ContributionStatus, Metadata};
use crate::contributor::Id as ContributorId;

verus! {

/// A contribution as the contribution store keeps it.
#[derive(Clone, Debug, PartialEq, Eq)]
pub struct ContributionDetails {
    pub id: ContributionId,
    pub onchain_id: String,
    pub project_id: String,
    pub contributor_id: Option<ContributorId>,
    pub title: Option<String>,
    pub description: Option<String>,
    pub status: ContributionStatus,
    pub external_link: Option<String>,
    pub gate: u8,
    pub metadata: Metadata,
}

#[derive(Clone, Debug, PartialEq, Eq)]
pub enum ContributionRepositoryError {
    NotFound,
    AlreadyExist(String),
    InvalidEntity(String),
    Infrastructure(String),
}

#[derive(Clone, Debug, PartialEq, Eq)]
pub enum ContributionServiceError {
    CannotApply(String),
    Infrastructure(String),
}

#[derive(Clone, Debug, PartialEq, Eq)]
pub enum DomainError {
    ContributionRepository(ContributionRepositoryError),
    ContributionService(ContributionServiceError),
    ApplicationProjectionRepository(ApplicationProjectionRepositoryError),
    Lock,
}

impl DomainError {
    /// A one-line description of the kind of failure.
    pub open spec fn description(&self) -> Seq<char> {
        match self {
            DomainError::ContributionRepository(_) => "Contribution repository error"@,
            DomainError::ContributionService(_) => "Contribution service error"@,
            DomainError::ApplicationProjectionRepository(_) => "Application projection repository error"@,
            DomainError::Lock => "Lock error"@,
        }
    }

    pub fn to_string(&self) -> (r: String)
        ensures
            r@ == self.description(),
    {
        match self {
            DomainError::ContributionRepository(_) => String::from_str("Contribution repository error"),
            DomainError::ContributionService(_) => String::from_str("Contribution service error"),
            DomainError::ApplicationProjectionRepository(_) => String::from_str(
                "Application projection repository error",
            ),
            DomainError::Lock => String::from_str("Lock error"),
        }
    }
}

/// Store of contributions.
pub trait ContributionRepository {
    fn find_by_id(&self, id: &ContributionId) -> Result<Option<ContributionDetails>, ContributionRepositoryError>;
}

/// Sends on-chain requests about contributions.
pub trait ContributionService {
    fn validate(&self, onchain_id: &String) -> Result<(), ContributionServiceError>;
}

pub trait Usecase {
    fn send_validate_request(&self, contribution_id: &ContributionId) -> Result<(), DomainError>;
}

/// What validating a contribution returns, from what the lookup found and,
/// when it found the contribution, what the service answered: `Ok` when
/// the service accepted; the service's error; `NotFound` when the
/// contribution does not exist; or the store's error.
pub fn validation_outcome(
    found: Result<Option<ContributionDetails>, ContributionRepositoryError>,
    validated: Result<(), ContributionServiceError>,
) -> (r: Result<(), DomainError>)
    ensures
        found matches Ok(Some(_)) ==> match validated {
            Ok(()) => r is Ok,
            Err(e) => r == Err::<(), DomainError>(DomainError::ContributionService(e)),
        },
        found matches Ok(None) ==> r == Err::<(), DomainError>(
            DomainError::ContributionRepository(ContributionRepositoryError::NotFound),
        ),
        found matches Err(e) ==> r == Err::<(), DomainError>(
            DomainError::ContributionRepository(e),
        ),
{
    match found {
        Ok(Some(_)) => match validated {
            Ok(()) => Ok(()),
            Err(e) => Err(DomainError::ContributionService(e)),
        },
        Ok(None) => Err(DomainError::ContributionRepository(ContributionRepositoryError::NotFound)),
        Err(e) => Err(DomainError::ContributionRepository(e)),
    }
}

/// Asks the chain to validate a stored contribution.
pub struct ValidateContribution<S: ContributionService, R: ContributionRepository> {
    pub contribution_service: S,
    pub contribution_repository: R,
}

impl<S: ContributionService, R: ContributionRepository> ValidateContribution<S, R> {
    pub fn new_usecase_boxed(contribution_service: S, contribution_repository: R) -> (r: Box<Self>)
        ensures
            r.contribution_service == contribution_service,
            r.contribution_repository == contribution_repository,
    {
        Box::new(ValidateContribution { contribution_service, contribution_repository })
    }
}

impl<S: ContributionService, R: ContributionRepository> Usecase for ValidateContribution<S, R> {
    /// Looks the contribution up and, when it exists, asks the service to
    /// validate it by its on-chain id; the result is `validation_outcome`
    /// of the two answers.
    fn send_validate_request(&self, contribution_id: &ContributionId) -> Result<(), DomainError> {
        let found = self.contribution_repository.find_by_id(contribution_id);
        let validated = match &found {
            Ok(Some(contribution)) => self.contribution_service.validate(&contribution.onchain_id),
            _ => Ok(()),
        };
        validation_outcome(found, validated)
    }
}

} // verus!
