use vstd::prelude::*;
use crate::application::ApplicationProjectionRepositoryError;
use crate::validate::{ContributionRepositoryError, ContributionServiceError, DomainError};

verus! {

/// A problem report for an HTTP client: status code, title, and details
/// when the failure carries any.
#[derive(Clone, Debug, PartialEq, Eq)]
pub struct HttpProblem {
    pub status: u16,
    pub title: String,
    pub detail: Option<String>,
}

pub const NOT_FOUND: u16 = 404;
pub const CONFLICT: u16 = 409;
pub const BAD_REQUEST: u16 = 400;
pub const INTERNAL_SERVER_ERROR: u16 = 500;

/// Status of a failure of the application store: an unknown application is
/// not found, a duplicate conflicts, an invalid one is a bad request.
pub open spec fn application_status(e: ApplicationProjectionRepositoryError) -> u16 {
    match e {
        ApplicationProjectionRepositoryError::NotFound => NOT_FOUND,
        ApplicationProjectionRepositoryError::AlreadyExist(_) => CONFLICT,
        ApplicationProjectionRepositoryError::InvalidEntity(_) => BAD_REQUEST,
        ApplicationProjectionRepositoryError::Infrastructure(_) => INTERNAL_SERVER_ERROR,
    }
}

/// Status of a failure of the contribution store; a duplicate is a bad request.
pub open spec fn contribution_status(e: ContributionRepositoryError) -> u16 {
    match e {
        ContributionRepositoryError::NotFound => NOT_FOUND,
        ContributionRepositoryError::AlreadyExist(_) => BAD_REQUEST,
        ContributionRepositoryError::InvalidEntity(_) => BAD_REQUEST,
        ContributionRepositoryError::Infrastructure(_) => INTERNAL_SERVER_ERROR,
    }
}

pub open spec fn service_status(e: ContributionServiceError) -> u16 {
    match e {
        ContributionServiceError::CannotApply(_) => BAD_REQUEST,
        ContributionServiceError::Infrastructure(_) => INTERNAL_SERVER_ERROR,
    }
}

pub open spec fn domain_status(e: DomainError) -> u16 {
    match e {
        DomainError::ContributionRepository(inner) => contribution_status(inner),
        DomainError::ContributionService(inner) => service_status(inner),
        DomainError::ApplicationProjectionRepository(inner) => application_status(inner),
        DomainError::Lock => INTERNAL_SERVER_ERROR,
    }
}

/// The message carried by a failure, if any.
pub open spec fn application_detail(e: ApplicationProjectionRepositoryError) -> Option<String> {
    match e {
        ApplicationProjectionRepositoryError::NotFound => None,
        ApplicationProjectionRepositoryError::AlreadyExist(m) => Some(m),
        ApplicationProjectionRepositoryError::InvalidEntity(m) => Some(m),
        ApplicationProjectionRepositoryError::Infrastructure(m) => Some(m),
    }
}

pub open spec fn contribution_detail(e: ContributionRepositoryError) -> Option<String> {
    match e {
        ContributionRepositoryError::NotFound => None,
        ContributionRepositoryError::AlreadyExist(m) => Some(m),
        ContributionRepositoryError::InvalidEntity(m) => Some(m),
        ContributionRepositoryError::Infrastructure(m) => Some(m),
    }
}

pub open spec fn service_detail(e: ContributionServiceError) -> Option<String> {
    match e {
        ContributionServiceError::CannotApply(m) => Some(m),
        ContributionServiceError::Infrastructure(m) => Some(m),
    }
}

pub open spec fn domain_detail(e: DomainError) -> Option<String> {
    match e {
        DomainError::ContributionRepository(inner) => contribution_detail(inner),
        DomainError::ContributionService(inner) => service_detail(inner),
        DomainError::ApplicationProjectionRepository(inner) => application_detail(inner),
        DomainError::Lock => None,
    }
}

impl DomainError {
    /// The problem report for this failure: its status as `domain_status`
    /// says, its one-line description as title, its message as details.
    pub fn to_http_api_problem(&self) -> (r: HttpProblem)
        ensures
            r.status == domain_status(*self),
            r.detail == domain_detail(*self),
            r.title@ == self.description(),
    {
        let title = self.to_string();
        let (status, detail) = match self {
            DomainError::ContributionRepository(inner) => match inner {
                ContributionRepositoryError::NotFound => (NOT_FOUND, None),
                ContributionRepositoryError::AlreadyExist(m) => (BAD_REQUEST, Some(m.clone())),
                ContributionRepositoryError::InvalidEntity(m) => (BAD_REQUEST, Some(m.clone())),
                ContributionRepositoryError::Infrastructure(m) => (INTERNAL_SERVER_ERROR, Some(m.clone())),
            },
            DomainError::ContributionService(inner) => match inner {
                ContributionServiceError::CannotApply(m) => (BAD_REQUEST, Some(m.clone())),
                ContributionServiceError::Infrastructure(m) => (INTERNAL_SERVER_ERROR, Some(m.clone())),
            },
            DomainError::ApplicationProjectionRepository(inner) => match inner {
                ApplicationProjectionRepositoryError::NotFound => (NOT_FOUND, None),
                ApplicationProjectionRepositoryError::AlreadyExist(m) => (CONFLICT, Some(m.clone())),
                ApplicationProjectionRepositoryError::InvalidEntity(m) => (BAD_REQUEST, Some(m.clone())),
                ApplicationProjectionRepositoryError::Infrastructure(m) => (
                    INTERNAL_SERVER_ERROR,
                    Some(m.clone()),
                ),
            },
            DomainError::Lock => (INTERNAL_SERVER_ERROR, None),
        };
        HttpProblem { status, title, detail }
    }
}

} // verus!
