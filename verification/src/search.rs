//! How far the queries of the distributed hash table have come, and searches for providers, which
//! find them little by little.

use std::collections::HashMap;

use vstd::prelude::*;

use crate::event::KademliaEvent;
use crate::peer::PeerSet;

verus! {

broadcast use vstd::std_specs::hash::group_hash_axioms;

/// How far a query has come.
#[derive(Debug)]
pub enum QueryProgress {
    /// The query that advertises the local node is done, with whatever result.
    Advertised,
    /// A search has found these providers.
    Found { providers: PeerSet },
    /// A search has failed.
    SearchFailed,
    /// Anything else.
    Other,
}

/// What the searches that are not complete have found so far, by the id of their query.
pub struct Searches {
    found: HashMap<u64, PeerSet>,
}

impl View for Searches {
    type V = Map<u64, Set<Seq<u8>>>;

    closed spec fn view(&self) -> Map<u64, Set<Seq<u8>>> {
        Map::new(|id: u64| self.found@.contains_key(id), |id: u64| self.found@[id]@)
    }
}

/// What a search has found so far: nothing, if it has not begun.
pub open spec fn found_so_far(searches: Map<u64, Set<Seq<u8>>>, id: u64) -> Set<Seq<u8>> {
    if searches.contains_key(id) {
        searches[id]
    } else {
        Set::empty()
    }
}

/// What the searches have found after one of the queries has come further.
pub open spec fn after_progress(
    searches: Map<u64, Set<Seq<u8>>>,
    id: u64,
    progress: QueryProgress,
    last: bool,
) -> Map<u64, Set<Seq<u8>>> {
    match progress {
        QueryProgress::Found { providers } => if last {
            searches.remove(id)
        } else {
            searches.insert(id, found_so_far(searches, id).union(providers@))
        },
        QueryProgress::SearchFailed => searches.remove(id),
        QueryProgress::Advertised | QueryProgress::Other => searches,
    }
}

/// What happens in the distributed hash table when one of the queries has come further: a search
/// that goes on makes no event, one that is complete hands over all that it has found, and one
/// that has failed settles nothing.
pub open spec fn progress_event(
    searches: Map<u64, Set<Seq<u8>>>,
    id: u64,
    progress: QueryProgress,
    last: bool,
    event: Option<KademliaEvent>,
) -> bool {
    match progress {
        QueryProgress::Advertised => event == Some(KademliaEvent::StartProviding { id }),
        QueryProgress::Found { providers } => if last {
            &&& event matches Some(KademliaEvent::GetProviders { id: done, providers: all })
            &&& done == id
            &&& all@ == found_so_far(searches, id).union(providers@)
        } else {
            event is None
        },
        QueryProgress::SearchFailed | QueryProgress::Other => event == Some(KademliaEvent::Other),
    }
}

impl Searches {
    /// No searches.
    pub fn new() -> (searches: Searches)
        ensures
            searches@ == Map::<u64, Set<Seq<u8>>>::empty(),
    {
        let searches = Searches { found: HashMap::new() };
        assert(searches@ =~= Map::empty());
        searches
    }

    /// Takes note of providers that a search has found. If these are the last, the search is
    /// complete, and all that it has found are its result.
    pub fn progress(&mut self, id: u64, providers: PeerSet, last: bool) -> (complete: Option<
        PeerSet,
    >)
        ensures
            match complete {
                Some(all) => {
                    &&& last
                    &&& all@ == found_so_far(old(self)@, id).union(providers@)
                    &&& final(self)@ == old(self)@.remove(id)
                },
                None => {
                    &&& !last
                    &&& final(self)@ == old(self)@.insert(
                        id,
                        found_so_far(old(self)@, id).union(providers@),
                    )
                },
            },
    {
        let mut all = match self.found.remove(&id) {
            Some(found) => found,
            None => PeerSet::new(),
        };
        all.extend(providers);
        if last {
            assert(self@ =~= old(self)@.remove(id));
            Some(all)
        } else {
            self.found.insert(id, all);
            assert(self@ =~= old(self)@.insert(
                id,
                found_so_far(old(self)@, id).union(providers@),
            ));
            None
        }
    }

    /// Takes note of how far a query has come, and says what happens because of it, if anything
    /// does.
    pub fn take(&mut self, id: u64, progress: QueryProgress, last: bool) -> (event: Option<
        KademliaEvent,
    >)
        ensures
            final(self)@ == after_progress(old(self)@, id, progress, last),
            progress_event(old(self)@, id, progress, last, event),
    {
        match progress {
            QueryProgress::Advertised => Some(KademliaEvent::StartProviding { id }),
            QueryProgress::Found { providers } => match self.progress(id, providers, last) {
                Some(providers) => Some(KademliaEvent::GetProviders { id, providers }),
                None => None,
            },
            QueryProgress::SearchFailed => {
                self.found.remove(&id);
                assert(self@ =~= old(self)@.remove(id));
                Some(KademliaEvent::Other)
            },
            QueryProgress::Other => Some(KademliaEvent::Other),
        }
    }
}

/// A step of a query.
pub struct QueryStep {
    /// The id of the query.
    pub id: u64,
    /// How far it has come.
    pub progress: QueryProgress,
    /// Whether it has come to its end.
    pub last: bool,
}

/// What the searches have found after steps of any queries.
pub open spec fn after_steps(
    searches: Map<u64, Set<Seq<u8>>>,
    steps: Seq<QueryStep>,
) -> Map<u64, Set<Seq<u8>>>
    decreases steps.len(),
{
    if steps.len() == 0 {
        searches
    } else {
        let step = steps.last();
        after_progress(
            after_steps(searches, steps.drop_last()),
            step.id,
            step.progress,
            step.last,
        )
    }
}

/// Whether a step is one in which the query with an id finds a provider.
pub open spec fn finds(step: QueryStep, id: u64, provider: Seq<u8>) -> bool {
    &&& step.id == id
    &&& step.progress matches QueryProgress::Found { providers }
    &&& providers@.contains(provider)
}

/// All providers that the query with an id finds in some step.
pub open spec fn all_found(steps: Seq<QueryStep>, id: u64) -> Set<Seq<u8>> {
    Set::new(
        |provider: Seq<u8>|
            exists|i: int| 0 <= i < steps.len() && finds(#[trigger] steps[i], id, provider),
    )
}

/// Whether a step brings the search with an id to its end.
pub open spec fn ends_search(step: QueryStep, id: u64) -> bool {
    &&& step.id == id
    &&& step.progress is SearchFailed || (step.progress is Found && step.last)
}

/// Steps of a search that goes on add up.
proof fn lemma_steps_add_up(searches: Map<u64, Set<Seq<u8>>>, steps: Seq<QueryStep>, id: u64)
    requires
        forall|i: int| 0 <= i < steps.len() ==> !ends_search(#[trigger] steps[i], id),
    ensures
        found_so_far(after_steps(searches, steps), id) == found_so_far(searches, id).union(
            all_found(steps, id),
        ),
    decreases steps.len(),
{
    let start = found_so_far(searches, id);
    if steps.len() == 0 {
        assert(start.union(all_found(steps, id)) =~= start);
    } else {
        let earlier = steps.drop_last();
        let n = steps.len() - 1;
        lemma_steps_add_up(searches, earlier, id);
        assert(!ends_search(steps[n], id));
        assert forall|p: Seq<u8>| #[trigger] all_found(steps, id).contains(p) == (all_found(
            earlier,
            id,
        ).contains(p) || finds(steps[n], id, p)) by {
            if all_found(earlier, id).contains(p) {
                let i = choose|i: int|
                    0 <= i < earlier.len() && finds(#[trigger] earlier[i], id, p);
                assert(finds(steps[i], id, p));
            }
            if all_found(steps, id).contains(p) && !finds(steps[n], id, p) {
                let i = choose|i: int| 0 <= i < steps.len() && finds(#[trigger] steps[i], id, p);
                assert(finds(earlier[i], id, p));
            }
        }
        assert(found_so_far(after_steps(searches, steps), id) =~= start.union(
            all_found(steps, id),
        ));
    }
}

/// A search gives all that it has found in any of its steps, the last one included, and nothing
/// else, whatever steps other queries take in between; and then it is gone.
pub proof fn law_search_gives_all_that_it_found(
    searches: Map<u64, Set<Seq<u8>>>,
    steps: Seq<QueryStep>,
    id: u64,
    providers: PeerSet,
    event: Option<KademliaEvent>,
)
    requires
        !searches.contains_key(id),
        forall|i: int| 0 <= i < steps.len() ==> !ends_search(#[trigger] steps[i], id),
        progress_event(
            after_steps(searches, steps),
            id,
            QueryProgress::Found { providers },
            true,
            event,
        ),
    ensures
        event matches Some(KademliaEvent::GetProviders { id: done, providers: all }) && done == id
            && all@ == all_found(
            steps.push(QueryStep { id, progress: QueryProgress::Found { providers }, last: true }),
            id,
        ),
        !after_steps(
            searches,
            steps.push(QueryStep { id, progress: QueryProgress::Found { providers }, last: true }),
        ).contains_key(id),
{
    let step = QueryStep { id, progress: QueryProgress::Found { providers }, last: true };
    let all_steps = steps.push(step);
    lemma_steps_add_up(searches, steps, id);
    assert(all_steps.drop_last() == steps);
    assert forall|p: Seq<u8>| #[trigger] all_found(all_steps, id).contains(p) == (all_found(
        steps,
        id,
    ).contains(p) || providers@.contains(p)) by {
        if all_found(steps, id).contains(p) {
            let i = choose|i: int| 0 <= i < steps.len() && finds(#[trigger] steps[i], id, p);
            assert(finds(all_steps[i], id, p));
        }
        if providers@.contains(p) {
            assert(finds(all_steps[steps.len() as int], id, p));
        }
        if all_found(all_steps, id).contains(p) && !providers@.contains(p) {
            let i = choose|i: int|
                0 <= i < all_steps.len() && finds(#[trigger] all_steps[i], id, p);
            assert(finds(steps[i], id, p));
        }
    }
    assert(all_found(all_steps, id) =~= all_found(steps, id).union(providers@));
    assert(Set::<Seq<u8>>::empty().union(all_found(steps, id)) =~= all_found(steps, id));
}

/// Each step of a query is reported as what it is: an advertisement that is done, whatever its
/// result, completes that very query; a search that goes on is not reported, and keeps what it has
/// found; one that is complete is reported with all that it has found, and is gone; one that has
/// failed settles nothing, and is gone. Other searches stay as they are.
pub proof fn law_steps_are_reported(
    searches: &mut Searches,
    id: u64,
    progress: QueryProgress,
    last: bool,
    event: Option<KademliaEvent>,
    other: u64,
    provider: Seq<u8>,
)
    requires
        call_ensures(Searches::take, (searches, id, progress, last), event),
        other != id,
    ensures
        final(searches)@.contains_key(other) == old(searches)@.contains_key(other),
        final(searches)@[other] == old(searches)@[other],
        match progress {
            QueryProgress::Advertised => {
                &&& event == Some(KademliaEvent::StartProviding { id })
                &&& final(searches)@ == old(searches)@
            },
            QueryProgress::Found { providers } => {
                let known = (old(searches)@.contains_key(id) && old(searches)@[id].contains(
                    provider,
                )) || providers@.contains(provider);
                if last {
                    &&& event matches Some(KademliaEvent::GetProviders { id: done, providers: all })
                    &&& done == id
                    &&& all@.contains(provider) == known
                    &&& !final(searches)@.contains_key(id)
                } else {
                    &&& event is None
                    &&& final(searches)@.contains_key(id)
                    &&& final(searches)@[id].contains(provider) == known
                }
            },
            QueryProgress::SearchFailed => {
                &&& event == Some(KademliaEvent::Other)
                &&& !final(searches)@.contains_key(id)
            },
            QueryProgress::Other => {
                &&& event == Some(KademliaEvent::Other)
                &&& final(searches)@ == old(searches)@
            },
        },
{
}

/// Providers that a search has found are noted, or given out, as a step of its query says.
pub proof fn law_progress_is_a_step(
    noted: &mut Searches,
    stepped: &mut Searches,
    id: u64,
    providers: PeerSet,
    last: bool,
    complete: Option<PeerSet>,
    event: Option<KademliaEvent>,
)
    requires
        old(noted)@ == old(stepped)@,
        call_ensures(Searches::progress, (noted, id, providers, last), complete),
        call_ensures(
            Searches::take,
            (stepped, id, QueryProgress::Found { providers }, last),
            event,
        ),
    ensures
        final(noted)@ == final(stepped)@,
        complete is Some <==> last,
        complete matches Some(all) ==> event matches Some(
            KademliaEvent::GetProviders { id: done, providers: same },
        ) && done == id && same@ == all@,
{
}

/// Before any query has come further, no search has found anything.
pub proof fn law_searches_begin_empty(fresh: Searches, id: u64)
    requires
        call_ensures(Searches::new, (), fresh),
    ensures
        !fresh@.contains_key(id),
{
}

/// Steps of other queries change nothing of what a search has found.
pub proof fn law_searches_do_not_mix(
    searches: Map<u64, Set<Seq<u8>>>,
    steps: Seq<QueryStep>,
    id: u64,
)
    requires
        forall|i: int| 0 <= i < steps.len() ==> (#[trigger] steps[i]).id != id,
    ensures
        after_steps(searches, steps).contains_key(id) == searches.contains_key(id),
        after_steps(searches, steps)[id] == searches[id],
    decreases steps.len(),
{
    if steps.len() > 0 {
        law_searches_do_not_mix(searches, steps.drop_last(), id);
        assert(steps.last() == steps[steps.len() - 1]);
    }
}

} // verus!
