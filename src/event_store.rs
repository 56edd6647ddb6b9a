use vstd::prelude::*;
use crate::contribution::{Contribution, ContributionId, Event, replay};

verus! {

/// The events of `log` that belong to contribution `id`, in order.
pub open spec fn events_of_aggregate(log: Seq<Event>, id: ContributionId) -> Seq<Event> {
    log.filter(|e: Event| e.spec_contribution_id() == id)
}

/// Append-only log of contribution events, in order of appending.
pub struct EventStore {
    log: Vec<Event>,
}

impl View for EventStore {
    type V = Seq<Event>;

    closed spec fn view(&self) -> Seq<Event> {
        self.log@
    }
}

impl EventStore {
    pub fn new() -> (r: EventStore)
        ensures
            r@ == Seq::<Event>::empty(),
    {
        EventStore { log: Vec::new() }
    }

    /// Appends one event; nothing already in the log changes.
    pub fn append(&mut self, event: Event)
        ensures
            final(self)@ == old(self)@.push(event),
    {
        self.log.push(event);
    }

    /// The events of one contribution, in the order they were appended.
    pub fn events_of(&self, id: &ContributionId) -> (r: Vec<Event>)
        ensures
            r@ == events_of_aggregate(self@, *id),
    {
        let mut found: Vec<Event> = Vec::new();
        let mut i: usize = 0;
        while i < self.log.len()
            invariant
                0 <= i <= self.log@.len(),
                found@ == events_of_aggregate(self.log@.subrange(0, i as int), *id),
            decreases self.log@.len() - i,
        {
            let e = self.log[i];
            proof {
                reveal(Seq::filter);
                assert(self.log@.subrange(0, i + 1).drop_last() =~= self.log@.subrange(0, i as int));
                assert(self.log@.subrange(0, i + 1).last() == e);
            }
            if e.contribution_id() == *id {
                found.push(e);
            }
            i = i + 1;
        }
        proof {
            assert(self.log@.subrange(0, self.log@.len() as int) =~= self.log@);
        }
        found
    }

    /// The current state of a contribution: its events replayed in order.
    pub fn load(&self, id: &ContributionId) -> (r: Option<Contribution>)
        ensures
            r == replay(events_of_aggregate(self@, *id)),
    {
        let events = self.events_of(id);
        Contribution::from_events(&events)
    }
}

} // verus!
