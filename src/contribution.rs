use vstd::prelude::*;
use crate::contributor::Id as ContributorId;

verus! {

/// Identifier of a contribution aggregate, a 256-bit value held as two halves.
#[derive(Clone, Copy, Debug, PartialEq, Eq, Structural, Hash, Default)]
pub struct ContributionId {
    pub high: u128,
    pub low: u128,
}

impl ContributionId {
    /// The identifier whose value is `value` (its upper half is zero).
    pub fn from_u128(value: u128) -> (r: ContributionId)
        ensures
            r.high == 0,
            r.low == value,
    {
        ContributionId { high: 0, low: value }
    }
}

/// An immutable event of the contribution aggregate.
#[derive(Clone, Copy, Debug, PartialEq, Eq, Structural)]
pub enum Event {
    Created { id: ContributionId, project_id: u64, issue_number: u64, gate: u8 },
    Applied { id: ContributionId, contributor_id: ContributorId },
    Assigned { id: ContributionId, contributor_id: ContributorId },
    Unassigned { id: ContributionId },
    Validated { id: ContributionId },
}

impl Event {
    /// The contribution this event belongs to.
    pub fn contribution_id(&self) -> (r: ContributionId)
        ensures
            r == self.spec_contribution_id(),
    {
        match self {
            Event::Created { id, .. } => *id,
            Event::Applied { id, .. } => *id,
            Event::Assigned { id, .. } => *id,
            Event::Unassigned { id } => *id,
            Event::Validated { id } => *id,
        }
    }

    pub open spec fn spec_contribution_id(&self) -> ContributionId {
        match self {
            Event::Created { id, .. } => *id,
            Event::Applied { id, .. } => *id,
            Event::Assigned { id, .. } => *id,
            Event::Unassigned { id } => *id,
            Event::Validated { id } => *id,
        }
    }
}

#[derive(Clone, Copy, Debug, PartialEq, Eq, Structural)]
pub enum ContributionStatus {
    Open,
    Assigned,
    Validated,
}

/// State of a contribution aggregate, obtained by replaying its events.
#[derive(Clone, Copy, Debug, PartialEq, Eq, Structural)]
pub struct Contribution {
    pub id: ContributionId,
    pub project_id: u64,
    pub issue_number: u64,
    pub gate: u8,
    pub status: ContributionStatus,
    pub contributor_id: Option<ContributorId>,
}

/// The state after one more event. Nothing exists before `Created`, and
/// events other than `Created` are meaningless there; a second `Created`
/// leaves the state as it is. `Applied` does not change the aggregate.
pub open spec fn evolve(state: Option<Contribution>, event: Event) -> Option<Contribution> {
    match state {
        None => match event {
            Event::Created { id, project_id, issue_number, gate } => Some(
                Contribution {
                    id,
                    project_id,
                    issue_number,
                    gate,
                    status: ContributionStatus::Open,
                    contributor_id: None,
                },
            ),
            _ => None,
        },
        Some(s) => match event {
            Event::Created { .. } => Some(s),
            Event::Applied { .. } => Some(s),
            Event::Assigned { contributor_id, .. } => Some(
                Contribution {
                    status: ContributionStatus::Assigned,
                    contributor_id: Some(contributor_id),
                    ..s
                },
            ),
            Event::Unassigned { .. } => Some(
                Contribution { status: ContributionStatus::Open, contributor_id: None, ..s },
            ),
            Event::Validated { .. } => Some(Contribution { status: ContributionStatus::Validated, ..s }),
        },
    }
}

/// The state obtained by replaying `events`, in order, from nothing.
pub open spec fn replay(events: Seq<Event>) -> Option<Contribution>
    decreases events.len(),
{
    if events.len() == 0 {
        None
    } else {
        evolve(replay(events.drop_last()), events.last())
    }
}

impl Contribution {
    /// Applies one event to a state.
    pub fn apply(state: Option<Contribution>, event: &Event) -> (r: Option<Contribution>)
        ensures
            r == evolve(state, *event),
    {
        match state {
            None => match event {
                Event::Created { id, project_id, issue_number, gate } => Some(
                    Contribution {
                        id: *id,
                        project_id: *project_id,
                        issue_number: *issue_number,
                        gate: *gate,
                        status: ContributionStatus::Open,
                        contributor_id: None,
                    },
                ),
                _ => None,
            },
            Some(s) => match event {
                Event::Created { .. } => Some(s),
                Event::Applied { .. } => Some(s),
                Event::Assigned { contributor_id, .. } => Some(
                    Contribution {
                        status: ContributionStatus::Assigned,
                        contributor_id: Some(*contributor_id),
                        ..s
                    },
                ),
                Event::Unassigned { .. } => Some(
                    Contribution { status: ContributionStatus::Open, contributor_id: None, ..s },
                ),
                Event::Validated { .. } => Some(
                    Contribution { status: ContributionStatus::Validated, ..s },
                ),
            },
        }
    }

    /// Rebuilds the state of a contribution from its ordered event log.
    pub fn from_events(events: &Vec<Event>) -> (r: Option<Contribution>)
        ensures
            r == replay(events@),
    {
        let mut state: Option<Contribution> = None;
        let mut i: usize = 0;
        while i < events.len()
            invariant
                0 <= i <= events.len(),
                state == replay(events@.subrange(0, i as int)),
            decreases events.len() - i,
        {
            proof {
                assert(events@.subrange(0, i + 1).drop_last() =~= events@.subrange(0, i as int));
            }
            state = Contribution::apply(state, &events[i]);
            i = i + 1;
        }
        proof {
            assert(events@.subrange(0, events.len() as int) =~= events@);
        }
        state
    }
}

/// Labels of a contribution read from its GitHub issue.
#[derive(Clone, Debug, PartialEq, Eq, Default)]
pub struct Metadata {
    pub difficulty: Option<String>,
    pub technology: Option<String>,
    pub duration: Option<String>,
    pub context: Option<String>,
    pub kind: Option<String>,
}

/// Read model of a contribution, for listings. The external link is the
/// issue's URL as text.
#[derive(Clone, Debug, PartialEq, Eq)]
pub struct Projection {
    pub id: ContributionId,
    pub project_id: u64,
    pub issue_number: u64,
    pub contributor_id: Option<ContributorId>,
    pub title: Option<String>,
    pub description: Option<String>,
    pub status: ContributionStatus,
    pub external_link: Option<String>,
    pub gate: u8,
    pub metadata: Metadata,
}

impl Projection {
    /// The numeric id contributions had before they had their own: the
    /// project id times one million, plus the issue number.
    pub fn old_composite_id(&self) -> (r: u64)
        requires
            self.project_id * 1_000_000 + self.issue_number <= u64::MAX,
        ensures
            r == self.project_id * 1_000_000 + self.issue_number,
    {
        self.project_id * 1_000_000 + self.issue_number
    }
}

} // verus!
