use marketplace::application::{
    ApplicationId, ApplicationProjection, ApplicationProjectionRepository,
    ApplicationProjectionRepositoryError, ApplicationStatus,
};
use marketplace::contribution::{ContributionId, Event};
use marketplace::contributor::Id as ContributorId;
use marketplace::in_memory::InMemoryApplicationRepository;
use marketplace::projector::{ApplicationProjector, UuidGenerator};
use std::cell::Cell;

struct SequentialUuidGenerator {
    next: Cell<u128>,
}

impl SequentialUuidGenerator {
    fn starting_at(first: u128) -> Self {
        SequentialUuidGenerator { next: Cell::new(first) }
    }
}

impl UuidGenerator for SequentialUuidGenerator {
    fn new_uuid(&self) -> ApplicationId {
        let value = self.next.get();
        self.next.set(value + 1);
        ApplicationId::from_u128(value)
    }
}

fn contribution_id() -> ContributionId {
    ContributionId::from_u128(0x123)
}

fn contributor(n: u128) -> ContributorId {
    ContributorId::from_u128(n)
}

fn projector_with(
    rows: Vec<ApplicationProjection>,
) -> ApplicationProjector<InMemoryApplicationRepository, SequentialUuidGenerator> {
    let mut repository = InMemoryApplicationRepository::new();
    for row in rows {
        repository.create(row).unwrap();
    }
    ApplicationProjector::new(repository, SequentialUuidGenerator::starting_at(1000))
}

fn rows_of(
    projector: &ApplicationProjector<InMemoryApplicationRepository, SequentialUuidGenerator>,
) -> Vec<ApplicationProjection> {
    projector.repository().all().clone()
}

#[test]
fn contribution_applied_with_same_contributor_updates_application() {
    let previous = ApplicationProjection::new_with_status(
        ApplicationId::from_u128(7),
        contribution_id(),
        contributor(0x456),
        ApplicationStatus::Refused,
    );
    let mut projector = projector_with(vec![previous]);
    projector.project(&Event::Applied { id: contribution_id(), contributor_id: contributor(0x456) });
    assert_eq!(rows_of(&projector), vec![previous.as_pending()]);
}

#[test]
fn contribution_applied_creates_an_application() {
    let mut projector = projector_with(vec![]);
    projector.project(&Event::Applied { id: contribution_id(), contributor_id: contributor(0x456) });
    assert_eq!(
        rows_of(&projector),
        vec![ApplicationProjection::new(
            ApplicationId::from_u128(1000),
            contribution_id(),
            contributor(0x456)
        )]
    );
}

#[test]
fn contribution_assigned_updates_all_the_contribution_applications() {
    let a1 = ApplicationProjection::new(ApplicationId::from_u128(1), contribution_id(), contributor(0x456));
    let a2 = ApplicationProjection::new(ApplicationId::from_u128(2), contribution_id(), contributor(0x457));
    let a3 = ApplicationProjection::new(ApplicationId::from_u128(3), contribution_id(), contributor(0x458));
    let mut projector = projector_with(vec![a1, a2, a3]);
    projector.project(&Event::Assigned { id: contribution_id(), contributor_id: contributor(0x457) });
    let rows = rows_of(&projector);
    assert_eq!(rows[0].id(), a1.id());
    assert_eq!(rows[0].status(), &ApplicationStatus::Refused);
    assert_eq!(rows[1].id(), a2.id());
    assert_eq!(rows[1].status(), &ApplicationStatus::Accepted);
    assert_eq!(rows[2].id(), a3.id());
    assert_eq!(rows[2].status(), &ApplicationStatus::Refused);
}

#[test]
fn contribution_unassigned_updates_all_the_contribution_applications() {
    let a1 = ApplicationProjection::new_with_status(
        ApplicationId::from_u128(1),
        contribution_id(),
        contributor(0x456),
        ApplicationStatus::Refused,
    );
    let a2 = ApplicationProjection::new_with_status(
        ApplicationId::from_u128(2),
        contribution_id(),
        contributor(0x457),
        ApplicationStatus::Accepted,
    );
    let a3 = ApplicationProjection::new_with_status(
        ApplicationId::from_u128(3),
        contribution_id(),
        contributor(0x458),
        ApplicationStatus::Refused,
    );
    let mut projector = projector_with(vec![a1, a2, a3]);
    projector.project(&Event::Unassigned { id: contribution_id() });
    assert_eq!(rows_of(&projector), vec![a1.as_pending(), a2.as_pending(), a3.as_pending()]);
}

#[test]
fn distinct_applicants_each_get_one_pending_application() {
    let mut projector = projector_with(vec![]);
    for n in 1..=4u128 {
        projector.project(&Event::Applied { id: contribution_id(), contributor_id: contributor(n) });
    }
    let rows = rows_of(&projector);
    assert_eq!(rows.len(), 4);
    for n in 1..=4u128 {
        let mine: Vec<_> = rows.iter().filter(|r| r.contributor_id() == &contributor(n)).collect();
        assert_eq!(mine.len(), 1);
        assert_eq!(mine[0].status(), &ApplicationStatus::Pending);
    }
}

#[test]
fn reapplying_after_refusal_resets_to_pending_without_new_application() {
    let mut projector = projector_with(vec![]);
    projector.project(&Event::Applied { id: contribution_id(), contributor_id: contributor(1) });
    projector.project(&Event::Applied { id: contribution_id(), contributor_id: contributor(2) });
    projector.project(&Event::Assigned { id: contribution_id(), contributor_id: contributor(2) });
    assert_eq!(rows_of(&projector)[0].status(), &ApplicationStatus::Refused);
    projector.project(&Event::Applied { id: contribution_id(), contributor_id: contributor(1) });
    let rows = rows_of(&projector);
    assert_eq!(rows.len(), 2);
    assert_eq!(rows[0].id(), &ApplicationId::from_u128(1000));
    assert_eq!(rows[0].status(), &ApplicationStatus::Pending);
    assert_eq!(rows[1].status(), &ApplicationStatus::Accepted);
}

#[test]
fn assignment_accepts_exactly_the_assignee() {
    let other = ContributionId::from_u128(0x999);
    let a1 = ApplicationProjection::new_with_status(
        ApplicationId::from_u128(1),
        contribution_id(),
        contributor(1),
        ApplicationStatus::Accepted,
    );
    let a2 = ApplicationProjection::new(ApplicationId::from_u128(2), contribution_id(), contributor(2));
    let a3 = ApplicationProjection::new_with_status(
        ApplicationId::from_u128(3),
        contribution_id(),
        contributor(3),
        ApplicationStatus::Refused,
    );
    let elsewhere = ApplicationProjection::new(ApplicationId::from_u128(4), other, contributor(1));
    let mut projector = projector_with(vec![a1, a2, a3, elsewhere]);
    projector.project(&Event::Assigned { id: contribution_id(), contributor_id: contributor(3) });
    assert_eq!(
        rows_of(&projector),
        vec![a1.as_refused(), a2.as_refused(), a3.as_accepted(), elsewhere]
    );
}

#[test]
fn unassignment_makes_every_application_pending() {
    let a1 = ApplicationProjection::new_with_status(
        ApplicationId::from_u128(1),
        contribution_id(),
        contributor(1),
        ApplicationStatus::Accepted,
    );
    let a2 = ApplicationProjection::new_with_status(
        ApplicationId::from_u128(2),
        contribution_id(),
        contributor(2),
        ApplicationStatus::Refused,
    );
    let elsewhere = ApplicationProjection::new_with_status(
        ApplicationId::from_u128(3),
        ContributionId::from_u128(0x999),
        contributor(1),
        ApplicationStatus::Accepted,
    );
    let mut projector = projector_with(vec![a1, a2, elsewhere]);
    projector.project(&Event::Unassigned { id: contribution_id() });
    assert_eq!(rows_of(&projector), vec![a1.as_pending(), a2.as_pending(), elsewhere]);
}

#[test]
fn replaying_events_twice_changes_nothing_more() {
    let events = [
        Event::Applied { id: contribution_id(), contributor_id: contributor(1) },
        Event::Applied { id: contribution_id(), contributor_id: contributor(2) },
        Event::Assigned { id: contribution_id(), contributor_id: contributor(1) },
        Event::Unassigned { id: contribution_id() },
    ];
    for event in events.iter() {
        let mut projector = projector_with(vec![
            ApplicationProjection::new(ApplicationId::from_u128(1), contribution_id(), contributor(1)),
            ApplicationProjection::new_with_status(
                ApplicationId::from_u128(2),
                contribution_id(),
                contributor(3),
                ApplicationStatus::Refused,
            ),
        ]);
        projector.project(event);
        let once = rows_of(&projector);
        projector.project(event);
        assert_eq!(rows_of(&projector), once);
    }
}

#[test]
fn created_and_validated_change_no_application() {
    let a1 = ApplicationProjection::new(ApplicationId::from_u128(1), contribution_id(), contributor(1));
    let mut projector = projector_with(vec![a1]);
    projector.project(&Event::Created { id: contribution_id(), project_id: 1, issue_number: 2, gate: 0 });
    projector.project(&Event::Validated { id: contribution_id() });
    assert_eq!(rows_of(&projector), vec![a1]);
}

#[test]
fn on_applied_reports_a_duplicate_id() {
    let taken = ApplicationProjection::new(ApplicationId::from_u128(1000), contribution_id(), contributor(1));
    let mut projector = projector_with(vec![taken]);
    let r = projector.on_applied(&contribution_id(), &contributor(2));
    assert!(matches!(r, Err(ApplicationProjectionRepositoryError::AlreadyExist(_))));
    assert_eq!(rows_of(&projector), vec![taken]);
}

#[test]
fn on_assigned_and_on_unassigned_succeed() {
    let a1 = ApplicationProjection::new(ApplicationId::from_u128(1), contribution_id(), contributor(1));
    let mut projector = projector_with(vec![a1]);
    assert_eq!(projector.on_assigned(&contribution_id(), &contributor(1)), Ok(()));
    assert_eq!(rows_of(&projector), vec![a1.as_accepted()]);
    assert_eq!(projector.on_unassigned(&contribution_id()), Ok(()));
    assert_eq!(rows_of(&projector), vec![a1]);
}

/// A store over fixed rows whose `update` fails from the given call on.
struct FailingStore {
    rows: Vec<ApplicationProjection>,
    updates_before_failure: usize,
}

impl ApplicationProjectionRepository for FailingStore {
    fn create(&mut self, application: ApplicationProjection) -> Result<(), ApplicationProjectionRepositoryError> {
        self.rows.push(application);
        Ok(())
    }

    fn update(&mut self, application: ApplicationProjection) -> Result<(), ApplicationProjectionRepositoryError> {
        if self.updates_before_failure == 0 {
            return Err(ApplicationProjectionRepositoryError::Infrastructure(String::from("down")));
        }
        self.updates_before_failure -= 1;
        for row in self.rows.iter_mut() {
            if row.id() == application.id() {
                *row = application;
            }
        }
        Ok(())
    }

    fn find(&self, id: &ApplicationId) -> Result<Option<ApplicationProjection>, ApplicationProjectionRepositoryError> {
        Ok(self.rows.iter().find(|r| r.id() == id).copied())
    }

    fn find_by_contribution_and_contributor(
        &self,
        contribution_id: &ContributionId,
        contributor_id: &ContributorId,
    ) -> Result<Option<ApplicationProjection>, ApplicationProjectionRepositoryError> {
        Ok(self
            .rows
            .iter()
            .find(|r| r.contribution_id() == contribution_id && r.contributor_id() == contributor_id)
            .copied())
    }

    fn list_by_contribution(
        &self,
        contribution_id: &ContributionId,
        _contributor_id: Option<ContributorId>,
    ) -> Result<Vec<ApplicationProjection>, ApplicationProjectionRepositoryError> {
        Ok(self.rows.iter().filter(|r| r.contribution_id() == contribution_id).copied().collect())
    }

    fn list_by_contributor(
        &self,
        _contributor_id: Option<ContributorId>,
    ) -> Result<Vec<ApplicationProjection>, ApplicationProjectionRepositoryError> {
        Ok(self.rows.clone())
    }
}

#[test]
fn interrupted_assignment_rewrites_a_prefix_and_reports_the_error() {
    let a1 = ApplicationProjection::new(ApplicationId::from_u128(1), contribution_id(), contributor(1));
    let a2 = ApplicationProjection::new(ApplicationId::from_u128(2), contribution_id(), contributor(2));
    let a3 = ApplicationProjection::new(ApplicationId::from_u128(3), contribution_id(), contributor(3));
    let store = FailingStore { rows: vec![a1, a2, a3], updates_before_failure: 1 };
    let mut projector = ApplicationProjector::new(store, SequentialUuidGenerator::starting_at(1));
    let r = projector.on_assigned(&contribution_id(), &contributor(2));
    assert_eq!(r, Err(ApplicationProjectionRepositoryError::Infrastructure(String::from("down"))));
    assert_eq!(projector.repository().rows, vec![a1.as_refused(), a2, a3]);
}
