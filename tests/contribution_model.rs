use marketplace::contribution::{Contribution, ContributionId, ContributionStatus, Event, Metadata, Projection};
use marketplace::contributor::Id as ContributorId;
use marketplace::event_store::EventStore;
use marketplace::issue_labels::extract_metadata;
use marketplace::dto::{
    find_contribution_by_id, find_project_by_title, Contribution as ContributionDto, InvalidUuid, Project, UuidParam,
};
use marketplace::validate::{
    ContributionDetails, ContributionRepository, ContributionRepositoryError, ContributionService,
    ContributionServiceError, DomainError, Usecase, ValidateContribution, validation_outcome,
};
use std::cell::RefCell;

fn id() -> ContributionId {
    ContributionId::from_u128(456)
}

fn created() -> Event {
    Event::Created { id: id(), project_id: 123, issue_number: 456, gate: 1 }
}

#[test]
fn replay_of_nothing_is_nothing() {
    assert_eq!(Contribution::from_events(&vec![]), None);
}

#[test]
fn created_contribution_is_open() {
    let state = Contribution::from_events(&vec![created()]).unwrap();
    assert_eq!(state.status, ContributionStatus::Open);
    assert_eq!(state.contributor_id, None);
    assert_eq!(state.project_id, 123);
    assert_eq!(state.issue_number, 456);
    assert_eq!(state.gate, 1);
}

#[test]
fn events_before_created_are_ignored() {
    let events = vec![Event::Assigned { id: id(), contributor_id: ContributorId::from_u128(666) }];
    assert_eq!(Contribution::from_events(&events), None);
}

#[test]
fn assignment_lifecycle_replays() {
    let x = ContributorId::from_u128(666);
    let mut events = vec![
        created(),
        Event::Applied { id: id(), contributor_id: x },
        Event::Assigned { id: id(), contributor_id: x },
    ];
    let state = Contribution::from_events(&events).unwrap();
    assert_eq!(state.status, ContributionStatus::Assigned);
    assert_eq!(state.contributor_id, Some(x));

    events.push(Event::Unassigned { id: id() });
    let state = Contribution::from_events(&events).unwrap();
    assert_eq!(state.status, ContributionStatus::Open);
    assert_eq!(state.contributor_id, None);

    events.push(Event::Assigned { id: id(), contributor_id: x });
    events.push(Event::Validated { id: id() });
    let state = Contribution::from_events(&events).unwrap();
    assert_eq!(state.status, ContributionStatus::Validated);
    assert_eq!(state.contributor_id, Some(x));
    assert_eq!(events[5].contribution_id(), id());
}

fn project(title: &str, ids: &[&str]) -> Project {
    Project {
        title: String::from(title),
        contributions: ids
            .iter()
            .map(|i| ContributionDto { id: String::from(*i), ..Default::default() })
            .collect(),
        ..Default::default()
    }
}

#[test]
fn finds_project_by_title() {
    let projects = vec![project("alpha", &[]), project("beta", &["1"]), project("beta", &["2"])];
    assert_eq!(find_project_by_title(&projects, "beta").cloned(), Some(projects[1].clone()));
    assert_eq!(find_project_by_title(&projects, "gamma"), None);
}

#[test]
fn finds_contribution_by_decimal_id() {
    let p = project("alpha", &["7", "42", "-3", "042"]);
    assert_eq!(find_contribution_by_id(&p, 42).map(|c| c.id.clone()), Some(String::from("42")));
    assert_eq!(find_contribution_by_id(&p, -3).map(|c| c.id.clone()), Some(String::from("-3")));
    assert_eq!(find_contribution_by_id(&p, 4), None);
}

fn details(onchain_id: &str) -> ContributionDetails {
    ContributionDetails {
        id: ContributionId::from_u128(12),
        onchain_id: String::from(onchain_id),
        project_id: String::from("34"),
        contributor_id: None,
        title: None,
        description: None,
        status: ContributionStatus::Open,
        external_link: None,
        gate: 0,
        metadata: Metadata::default(),
    }
}

struct FixedRepository(Result<Option<ContributionDetails>, ContributionRepositoryError>);

impl ContributionRepository for FixedRepository {
    fn find_by_id(&self, _id: &ContributionId) -> Result<Option<ContributionDetails>, ContributionRepositoryError> {
        self.0.clone()
    }
}

struct RecordingService {
    fails: bool,
    validated: RefCell<Vec<String>>,
}

impl ContributionService for RecordingService {
    fn validate(&self, onchain_id: &String) -> Result<(), ContributionServiceError> {
        self.validated.borrow_mut().push(onchain_id.clone());
        if self.fails {
            Err(ContributionServiceError::Infrastructure(String::from("Oops")))
        } else {
            Ok(())
        }
    }
}

fn service(fails: bool) -> RecordingService {
    RecordingService { fails, validated: RefCell::new(vec![]) }
}

#[test]
fn validate_contribution_success() {
    let usecase = ValidateContribution::new_usecase_boxed(service(false), FixedRepository(Ok(Some(details("22")))));
    let result = usecase.send_validate_request(&ContributionId::from_u128(12));
    assert!(result.is_ok());
    assert_eq!(usecase.contribution_service.validated.borrow().clone(), vec![String::from("22")]);
}

#[test]
fn validate_contribution_find_error() {
    let usecase = ValidateContribution::new_usecase_boxed(
        service(false),
        FixedRepository(Err(ContributionRepositoryError::InvalidEntity(String::from("Oops")))),
    );
    let result = usecase.send_validate_request(&ContributionId::from_u128(12));
    assert_eq!("Contribution repository error", result.unwrap_err().to_string());
    assert!(usecase.contribution_service.validated.borrow().is_empty());
}

#[test]
fn validate_contribution_not_found() {
    let usecase = ValidateContribution::new_usecase_boxed(service(false), FixedRepository(Ok(None)));
    let result = usecase.send_validate_request(&ContributionId::from_u128(12));
    assert_eq!(
        result,
        Err(DomainError::ContributionRepository(ContributionRepositoryError::NotFound))
    );
    assert_eq!("Contribution repository error", result.unwrap_err().to_string());
}

#[test]
fn validate_contribution_send_error() {
    let usecase = ValidateContribution::new_usecase_boxed(service(true), FixedRepository(Ok(Some(details("22")))));
    let result = usecase.send_validate_request(&ContributionId::from_u128(12));
    assert_eq!("Contribution service error", result.unwrap_err().to_string());
}

#[test]
fn validation_outcome_maps_each_answer() {
    assert_eq!(validation_outcome(Ok(Some(details("99"))), Ok(())), Ok(()));
    assert_eq!(
        validation_outcome(
            Ok(Some(details("99"))),
            Err(ContributionServiceError::CannotApply(String::from("closed")))
        ),
        Err(DomainError::ContributionService(ContributionServiceError::CannotApply(String::from(
            "closed"
        ))))
    );
    assert_eq!(
        validation_outcome(Ok(None), Ok(())),
        Err(DomainError::ContributionRepository(ContributionRepositoryError::NotFound))
    );
    assert_eq!(
        validation_outcome(Err(ContributionRepositoryError::Infrastructure(String::from("db"))), Ok(())),
        Err(DomainError::ContributionRepository(ContributionRepositoryError::Infrastructure(
            String::from("db")
        )))
    );
}

#[test]
fn event_store_replays_each_aggregate_on_its_own() {
    let other = ContributionId::from_u128(789);
    let x = ContributorId::from_u128(1);
    let mut store = EventStore::new();
    store.append(created());
    store.append(Event::Created { id: other, project_id: 9, issue_number: 8, gate: 0 });
    store.append(Event::Assigned { id: id(), contributor_id: x });
    store.append(Event::Validated { id: other });
    assert_eq!(store.events_of(&id()).len(), 2);
    let mine = store.load(&id()).unwrap();
    assert_eq!(mine.status, ContributionStatus::Assigned);
    assert_eq!(mine.contributor_id, Some(x));
    let theirs = store.load(&other).unwrap();
    assert_eq!(theirs.status, ContributionStatus::Validated);
    assert_eq!(theirs.project_id, 9);
    assert_eq!(store.load(&ContributionId::from_u128(1)), None);
}

#[test]
fn old_composite_id_joins_project_and_issue() {
    let projection = Projection {
        id: id(),
        project_id: 123,
        issue_number: 456,
        contributor_id: None,
        title: None,
        description: None,
        status: ContributionStatus::Open,
        external_link: Some(String::from("https://github.com/o/r/issues/456")),
        gate: 1,
        metadata: Metadata::default(),
    };
    assert_eq!(projection.old_composite_id(), 123_000_456);
}

#[test]
fn issue_labels_give_metadata() {
    let labels: Vec<String> = vec![
        "Context: Starknet",
        "Difficulty:Easy",
        "good first issue",
        "Techno: Rust: Cairo",
        " Duration :  1 week ",
        "Type: Feature",
        "Context: Later",
        "Priority: high",
    ]
    .into_iter()
    .map(String::from)
    .collect();
    let metadata = extract_metadata(&labels);
    assert_eq!(
        metadata,
        Metadata {
            difficulty: Some(String::from("Easy")),
            technology: None,
            duration: Some(String::from("1 week")),
            context: Some(String::from("Later")),
            kind: Some(String::from("Feature")),
        }
    );
    assert_eq!(extract_metadata(&vec![]), Metadata::default());
}

#[test]
fn uuid_param_reads_a_uuid() {
    assert_eq!(
        UuidParam::from_param("a6127643-1344-4a44-bbfb-7142c17a4ef0"),
        Ok(UuidParam { value: 0xa6127643_1344_4a44_bbfb_7142c17a4ef0 })
    );
    assert_eq!(
        UuidParam::from_param("03b4715cd237422c8689370e4c257f90"),
        Ok(UuidParam { value: 0x03b4715c_d237_422c_8689_370e4c257f90 })
    );
    assert_eq!(UuidParam::from_param("not-a-uuid"), Err(InvalidUuid));
    assert_eq!(UuidParam::from_param(""), Err(InvalidUuid));
}
