//! Generated basenames: the candidates, which of them generation yields,
//! and the steps by which generation gets there.

use vstd::prelude::*;
use vstd::string::*;
use crate::ids::FSId;
use crate::store::StoreView;
use crate::text::{decimal, opt_text, render_i64, render_u64, signed_decimal};
use crate::time::Timestamp;
use super::IdOption;

verus! {

/// The `count`-th name that is tried when a basename is generated at the
/// instant `now`: the seconds of the instant, an underscore, the count.
pub open spec fn candidate(now: Timestamp, count: nat) -> Seq<char> {
    signed_decimal(now.secs as int) + seq!['_'] + decimal(count)
}

/// Whether no active entry of `scope` bears the basename `name`.
pub open spec fn is_free(store: StoreView, scope: IdOption, name: Seq<char>) -> bool {
    store.name_check(scope, name) is None
}

/// Whether the `count`-th candidate is free and every candidate before it is
/// taken.
pub open spec fn is_first_free(store: StoreView, scope: IdOption, now: Timestamp, count: nat) -> bool {
    &&& 1 <= count
    &&& is_free(store, scope, candidate(now, count))
    &&& forall|j: nat| 1 <= j < count ==> !is_free(store, scope, #[trigger] candidate(now, j))
}

/// The basename that generation yields at the instant `now` within
/// `attempts` attempts: the first free candidate among the first `attempts`
/// ones, if there is one.
pub open spec fn generated_name(
    store: StoreView,
    scope: IdOption,
    now: Timestamp,
    attempts: nat,
) -> Option<Seq<char>> {
    if exists|count: nat| count <= attempts && is_first_free(store, scope, now, count) {
        let count = choose|count: nat| count <= attempts && is_first_free(store, scope, now, count);
        Some(candidate(now, count))
    } else {
        None
    }
}

/// The first free candidate is the generated name.
pub proof fn lemma_generated_is(
    store: StoreView,
    scope: IdOption,
    now: Timestamp,
    attempts: nat,
    count: nat,
)
    requires
        count <= attempts,
        is_first_free(store, scope, now, count),
    ensures
        generated_name(store, scope, now, attempts) == Some(candidate(now, count)),
{
    let other = choose|other: nat| other <= attempts && is_first_free(store, scope, now, other);
    assert(other <= attempts && is_first_free(store, scope, now, other));
    if other < count {
        assert(!is_free(store, scope, candidate(now, other)));
    } else if count < other {
        assert(!is_free(store, scope, candidate(now, count)));
    }
}

/// A generated name is free.
pub proof fn lemma_generated_free(store: StoreView, scope: IdOption, now: Timestamp, attempts: nat)
    ensures
        generated_name(store, scope, now, attempts) matches Some(name) ==> is_free(
            store,
            scope,
            name,
        ),
{
    if exists|count: nat| count <= attempts && is_first_free(store, scope, now, count) {
        let count = choose|count: nat| count <= attempts && is_first_free(store, scope, now, count);
        assert(is_first_free(store, scope, now, count));
    }
}

/// A generated name is one of the candidates within the attempts.
pub proof fn lemma_generated_some(store: StoreView, scope: IdOption, now: Timestamp, attempts: nat)
    ensures
        generated_name(store, scope, now, attempts) matches Some(name) ==> exists|count: nat|
            1 <= count <= attempts && name == #[trigger] candidate(now, count),
{
    if exists|count: nat| count <= attempts && is_first_free(store, scope, now, count) {
        let count = choose|count: nat| count <= attempts && is_first_free(store, scope, now, count);
        assert(is_first_free(store, scope, now, count));
        assert(generated_name(store, scope, now, attempts) == Some(candidate(now, count)));
    }
}

/// Where a candidate is free, some candidate up to it is the first free one.
pub proof fn lemma_least_free(store: StoreView, scope: IdOption, now: Timestamp, free: nat)
    requires
        1 <= free,
        is_free(store, scope, candidate(now, free)),
    ensures
        exists|count: nat| 1 <= count <= free && is_first_free(store, scope, now, count),
    decreases free,
{
    if forall|j: nat| 1 <= j < free ==> !is_free(store, scope, #[trigger] candidate(now, j)) {
        assert(is_first_free(store, scope, now, free));
    } else {
        let j = choose|j: nat| 1 <= j < free && is_free(store, scope, #[trigger] candidate(now, j));
        lemma_least_free(store, scope, now, j);
        let count = choose|count: nat| 1 <= count <= j && is_first_free(store, scope, now, count);
        assert(1 <= count <= free && is_first_free(store, scope, now, count));
    }
}

/// Generation yields no name exactly when every candidate within the
/// attempts is taken.
pub proof fn lemma_generated_none(store: StoreView, scope: IdOption, now: Timestamp, attempts: nat)
    ensures
        generated_name(store, scope, now, attempts) is None <==> forall|count: nat|
            1 <= count <= attempts ==> !is_free(store, scope, #[trigger] candidate(now, count)),
{
    if generated_name(store, scope, now, attempts) is None {
        assert forall|count: nat| 1 <= count <= attempts implies !is_free(
            store,
            scope,
            #[trigger] candidate(now, count),
        ) by {
            if is_free(store, scope, candidate(now, count)) {
                lemma_least_free(store, scope, now, count);
                let least = choose|least: nat|
                    1 <= least <= count && is_first_free(store, scope, now, least);
                assert(least <= attempts && is_first_free(store, scope, now, least));
            }
        }
    } else {
        let count = choose|count: nat| count <= attempts && is_first_free(store, scope, now, count);
        assert(is_first_free(store, scope, now, count));
        assert(1 <= count <= attempts && is_free(store, scope, candidate(now, count)));
    }
}

/// The `count`-th candidate for the instant `now`, as text.
pub fn candidate_name(now: Timestamp, count: usize) -> (name: String)
    ensures
        name@ == candidate(now, count as nat),
{
    let mut name = render_i64(now.secs);
    name.append("_");
    let digits = render_u64(count as u64);
    name.append(digits.as_str());
    proof {
        reveal_strlit("_");
        assert(name@ =~= candidate(now, count as nat));
    }
    name
}

/// Where the generation of a basename stands: for which instant names are
/// generated, how many candidates were found taken so far, and how many may
/// be tried in all.
#[derive(Clone, Copy, Debug, PartialEq, Eq, Structural)]
pub struct NameGen {
    pub now: Timestamp,
    pub tried: usize,
    pub attempts: usize,
}

/// What generation wants next.
#[derive(Debug)]
pub enum Probe {
    /// Look up whether an active entry of the scope bears this name.
    Check(String),
    /// Generation is over: with this name, or without one.
    Done(Option<String>),
}

/// What generation wants next, over plain values.
pub enum ProbeView {
    Check(Seq<char>),
    Done(Option<Seq<char>>),
}

impl View for Probe {
    type V = ProbeView;

    open spec fn view(&self) -> ProbeView {
        match self {
            Probe::Check(name) => ProbeView::Check(name@),
            Probe::Done(name) => ProbeView::Done(opt_text(*name)),
        }
    }
}

impl NameGen {
    /// The candidate that is looked up while generation stands here.
    pub open spec fn current(self) -> Seq<char> {
        candidate(self.now, (self.tried + 1) as nat)
    }

    /// How generation starts: with the first candidate, unless no attempt is
    /// allowed.
    pub open spec fn first(now: Timestamp, attempts: usize) -> (NameGen, ProbeView) {
        let state = NameGen { now, tried: 0, attempts };
        if attempts == 0 {
            (state, ProbeView::Done(None))
        } else {
            (state, ProbeView::Check(state.current()))
        }
    }

    /// How generation goes on when the lookup of the current candidate is
    /// answered: a candidate that is not taken is the name; after one that is
    /// taken the next is tried, unless the attempts are used up.
    pub open spec fn next(self, taken: bool) -> (NameGen, ProbeView) {
        if self.tried >= self.attempts {
            (self, ProbeView::Done(None))
        } else if !taken {
            (NameGen { tried: self.attempts, ..self }, ProbeView::Done(Some(self.current())))
        } else {
            let state = NameGen { tried: (self.tried + 1) as usize, ..self };
            if state.tried < state.attempts {
                (state, ProbeView::Check(state.current()))
            } else {
                (state, ProbeView::Done(None))
            }
        }
    }

    /// Starts the generation of a basename for the instant `now` with at
    /// most `attempts` attempts.
    pub fn start(now: Timestamp, attempts: usize) -> (step: (NameGen, Probe))
        ensures
            (step.0, step.1@) == NameGen::first(now, attempts),
    {
        let state = NameGen { now, tried: 0, attempts };
        if attempts == 0 {
            (state, Probe::Done(None))
        } else {
            (state, Probe::Check(candidate_name(now, 1)))
        }
    }

    /// Goes on with the generation, given what the lookup of the current
    /// candidate found.
    pub fn step(self, found: Option<FSId>) -> (step: (NameGen, Probe))
        ensures
            (step.0, step.1@) == self.next(found is Some),
    {
        if self.tried >= self.attempts {
            return (self, Probe::Done(None));
        }
        let count = self.tried + 1;
        if found.is_none() {
            let name = candidate_name(self.now, count);
            return (
                NameGen { now: self.now, tried: self.attempts, attempts: self.attempts },
                Probe::Done(Some(name)),
            );
        }
        let state = NameGen { now: self.now, tried: count, attempts: self.attempts };
        if count < self.attempts {
            (state, Probe::Check(candidate_name(self.now, count + 1)))
        } else {
            (state, Probe::Done(None))
        }
    }
}

} // verus!
