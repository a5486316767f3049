//! Checking that a snapshot read from a store is well formed.
use vstd::prelude::*;

use crate::models::{DBState, Snapshot};
use crate::snapshot::{contains_id, sorted_keys};

verus! {

/// Position `j` of the list of epic `e` is the only place where any epic
/// lists that story.
pub open spec fn only_listing(s: Snapshot, e: u32, j: int) -> bool {
    forall|e2: u32, j2: int|
        #![trigger s.epics[e2].stories[j2]]
        s.epics.contains_key(e2) && 0 <= j2 < s.epics[e2].stories.len() && s.epics[e2].stories[j2]
            == s.epics[e].stories[j] ==> e2 == e && j2 == j
}

/// Every listed story exists and is listed at one position of one epic.
pub open spec fn listings_sound(s: Snapshot) -> bool {
    forall|e: u32, j: int|
        #![trigger s.epics[e].stories[j]]
        s.epics.contains_key(e) && 0 <= j < s.epics[e].stories.len() ==> s.stories.contains_key(
            s.epics[e].stories[j],
        ) && only_listing(s, e, j)
}

/// Some epic lists the story `x`.
pub open spec fn listed_somewhere(s: Snapshot, x: u32) -> bool {
    exists|e: u32| s.links(e, x)
}

/// `well_formed`, with the conditions on the epics' lists taken position by
/// position.
pub open spec fn well_formed_by_position(s: Snapshot) -> bool {
    &&& s.ids_bounded()
    &&& forall|id: u32| #[trigger] s.epics.contains_key(id) ==> !s.stories.contains_key(id)
    &&& listings_sound(s)
    &&& forall|x: u32| #[trigger] s.stories.contains_key(x) ==> exists|e: u32| s.links(e, x)
}

proof fn lemma_well_formed_by_position(s: Snapshot)
    ensures
        s.well_formed() <==> well_formed_by_position(s),
{
    if s.well_formed() {
        assert forall|e: u32, j: int| s.epics.contains_key(e) && 0 <= j < s.epics[e].stories.len() implies
            s.stories.contains_key(#[trigger] s.epics[e].stories[j]) && only_listing(s, e, j) by {
            let x = s.epics[e].stories[j];
            assert(s.links(e, x));
            assert forall|e2: u32, j2: int|
                s.epics.contains_key(e2) && 0 <= j2 < s.epics[e2].stories.len()
                    && #[trigger] s.epics[e2].stories[j2] == x implies e2 == e && j2 == j by {
                assert(s.links(e2, x));
                assert(s.epics[e].stories.no_duplicates());
            }
        }
    }
    if well_formed_by_position(s) {
        assert forall|e: u32| #[trigger] s.epics.contains_key(e) implies s.epics[e].stories.no_duplicates() by {
            let l = s.epics[e].stories;
            assert forall|i: int, j: int| 0 <= i < l.len() && 0 <= j < l.len() && i != j implies l[i] != l[j] by {
                assert(only_listing(s, e, i));
                if l[i] == l[j] {
                    assert(s.epics[e].stories[j] == s.epics[e].stories[i]);
                }
            }
        }
        assert forall|e: u32, x: u32| #[trigger] s.links(e, x) implies s.stories.contains_key(x) by {
            let j = choose|j: int| 0 <= j < s.epics[e].stories.len() && s.epics[e].stories[j] == x;
            assert(s.stories.contains_key(s.epics[e].stories[j]));
        }
        assert forall|e1: u32, e2: u32, x: u32| #[trigger] s.links(e1, x) && #[trigger] s.links(e2, x) implies e1
            == e2 by {
            let j1 = choose|j: int| 0 <= j < s.epics[e1].stories.len() && s.epics[e1].stories[j] == x;
            let j2 = choose|j: int| 0 <= j < s.epics[e2].stories.len() && s.epics[e2].stories[j] == x;
            assert(only_listing(s, e1, j1));
            assert(s.epics[e2].stories[j2] == s.epics[e1].stories[j1]);
        }
    }
}

/// Whether position `j` of the list of epic `e` is the only place where any
/// epic lists that story; `epic_ids` holds the id of every epic.
fn listed_only_there(state: &DBState, epic_ids: &Vec<u32>, e: u32, j: usize) -> (r: bool)
    requires
        forall|k: u32| epic_ids@.contains(k) <==> state@.epics.contains_key(k),
        state@.epics.contains_key(e),
        j < state@.epics[e].stories.len(),
    ensures
        r == only_listing(state@, e, j as int),
{
    let ghost s = state@;
    let sid = match state.epics.get(&e) {
        Some(epic) => epic.stories[j],
        None => {
            return false;
        },
    };
    let mut k: usize = 0;
    while k < epic_ids.len()
        invariant
            s == state@,
            sid == s.epics[e].stories[j as int],
            k <= epic_ids.len(),
            forall|m: int, j2: int|
                #![trigger s.epics[epic_ids@[m]].stories[j2]]
                0 <= m < k && s.epics.contains_key(epic_ids@[m]) && 0 <= j2 < s.epics[epic_ids@[m]].stories.len()
                    && s.epics[epic_ids@[m]].stories[j2] == sid ==> epic_ids@[m] == e && j2 == j,
        decreases epic_ids.len() - k,
    {
        let e2 = epic_ids[k];
        if let Some(other) = state.epics.get(&e2) {
            let mut j2: usize = 0;
            while j2 < other.stories.len()
                invariant
                    s == state@,
                    sid == s.epics[e].stories[j as int],
                    s.epics.contains_key(e2),
                    other.stories@ == s.epics[e2].stories,
                    e2 == epic_ids@[k as int],
                    k < epic_ids.len(),
                    j2 <= other.stories.len(),
                    forall|m: int, j3: int|
                        #![trigger s.epics[epic_ids@[m]].stories[j3]]
                        0 <= m < k && s.epics.contains_key(epic_ids@[m]) && 0 <= j3 < s.epics[epic_ids@[m]].stories.len()
                            && s.epics[epic_ids@[m]].stories[j3] == sid ==> epic_ids@[m] == e && j3 == j,
                    forall|j3: int| 0 <= j3 < j2 && #[trigger] s.epics[e2].stories[j3] == sid ==> e2 == e && j3 == j,
                decreases other.stories.len() - j2,
            {
                if other.stories[j2] == sid && !(e2 == e && j2 == j) {
                    assert(s.epics[e2].stories[j2 as int] == s.epics[e].stories[j as int]);
                    return false;
                }
                j2 = j2 + 1;
            }
        }
        k = k + 1;
    }
    proof {
        assert forall|e2: u32, j2: int|
            s.epics.contains_key(e2) && 0 <= j2 < s.epics[e2].stories.len() && #[trigger] s.epics[e2].stories[j2]
                == s.epics[e].stories[j as int] implies e2 == e && j2 == j by {
            assert(epic_ids@.contains(e2));
            let m = choose|m: int| 0 <= m < epic_ids@.len() && epic_ids@[m] == e2;
            assert(s.epics[epic_ids@[m]].stories[j2] == sid);
        }
    }
    true
}

impl DBState {
    /// The epic whose list holds `story_id`, if any; in a well-formed state
    /// it is the story's one epic.
    pub fn epic_of(&self, story_id: u32) -> (r: Option<u32>)
        ensures
            match r {
                Some(e) => self@.links(e, story_id),
                None => !listed_somewhere(self@, story_id),
            },
            self@.well_formed() ==> (r matches Some(e) ==> forall|e2: u32| #[trigger] self@.links(e2, story_id) ==> e2 == e),
    {
        let ghost s = self@;
        let epic_ids = sorted_keys(&self.epics);
        let mut k: usize = 0;
        while k < epic_ids.len()
            invariant
                s == self@,
                k <= epic_ids.len(),
                forall|x: u32| epic_ids@.contains(x) <==> s.epics.contains_key(x),
                forall|m: int| 0 <= m < k ==> !s.links(#[trigger] epic_ids@[m], story_id),
            decreases epic_ids.len() - k,
        {
            let e = epic_ids[k];
            if let Some(epic) = self.epics.get(&e) {
                if contains_id(&epic.stories, story_id) {
                    assert(s.links(e, story_id));
                    return Some(e);
                }
            } else {
                assert(!s.epics.contains_key(e));
            }
            k = k + 1;
        }
        proof {
            assert forall|e: u32| !s.links(e, story_id) by {
                if s.links(e, story_id) {
                    assert(epic_ids@.contains(e));
                    let m = choose|m: int| 0 <= m < epic_ids@.len() && epic_ids@[m] == e;
                    assert(!s.links(epic_ids@[m], story_id));
                }
            }
        }
        None
    }

    /// Whether the state is well formed: each story listed by an epic exists
    /// and is listed by that epic alone, once; each story is listed by some
    /// epic; no id names both an epic and a story; no id is above
    /// `last_item_id`.
    pub fn is_well_formed(&self) -> (r: bool)
        ensures
            r == self@.well_formed(),
    {
        let ghost s = self@;
        proof {
            lemma_well_formed_by_position(s);
        }
        let epic_ids = sorted_keys(&self.epics);
        let story_ids = sorted_keys(&self.stories);
        let mut k: usize = 0;
        while k < epic_ids.len()
            invariant
                s == self@,
                k <= epic_ids.len(),
                forall|x: u32| epic_ids@.contains(x) <==> s.epics.contains_key(x),
                forall|m: int|
                    0 <= m < k ==> #[trigger] epic_ids@[m] <= s.last_item_id && !s.stories.contains_key(
                        epic_ids@[m],
                    ),
            decreases epic_ids.len() - k,
        {
            let e = epic_ids[k];
            if e > self.last_item_id || self.stories.contains_key(&e) {
                assert(epic_ids@.contains(e));
                return false;
            }
            k = k + 1;
        }
        let mut k: usize = 0;
        while k < story_ids.len()
            invariant
                s == self@,
                k <= story_ids.len(),
                forall|x: u32| story_ids@.contains(x) <==> s.stories.contains_key(x),
                forall|m: int| 0 <= m < k ==> #[trigger] story_ids@[m] <= s.last_item_id,
            decreases story_ids.len() - k,
        {
            let x = story_ids[k];
            if x > self.last_item_id {
                assert(story_ids@.contains(x));
                return false;
            }
            k = k + 1;
        }
        proof {
            assert forall|x: u32| #[trigger] s.epics.contains_key(x) implies x <= s.last_item_id
                && !s.stories.contains_key(x) by {
                assert(epic_ids@.contains(x));
                let m = choose|m: int| 0 <= m < epic_ids@.len() && epic_ids@[m] == x;
                assert(epic_ids@[m] <= s.last_item_id);
            }
            assert forall|x: u32| #[trigger] s.stories.contains_key(x) implies x <= s.last_item_id by {
                assert(story_ids@.contains(x));
                let m = choose|m: int| 0 <= m < story_ids@.len() && story_ids@[m] == x;
                assert(story_ids@[m] <= s.last_item_id);
            }
        }
        let mut k: usize = 0;
        while k < epic_ids.len()
            invariant
                s == self@,
                k <= epic_ids.len(),
                forall|x: u32| epic_ids@.contains(x) <==> s.epics.contains_key(x),
                forall|m: int, j: int|
                    #![trigger s.epics[epic_ids@[m]].stories[j]]
                    0 <= m < k && s.epics.contains_key(epic_ids@[m]) && 0 <= j < s.epics[epic_ids@[m]].stories.len()
                        ==> s.stories.contains_key(s.epics[epic_ids@[m]].stories[j]) && only_listing(
                        s,
                        epic_ids@[m],
                        j,
                    ),
            decreases epic_ids.len() - k,
        {
            let e = epic_ids[k];
            if let Some(epic) = self.epics.get(&e) {
                let mut j: usize = 0;
                while j < epic.stories.len()
                    invariant
                        s == self@,
                        k < epic_ids.len(),
                        e == epic_ids@[k as int],
                        s.epics.contains_key(e),
                        epic.stories@ == s.epics[e].stories,
                        j <= epic.stories.len(),
                        forall|x: u32| epic_ids@.contains(x) <==> s.epics.contains_key(x),
                        forall|m: int, j3: int|
                            #![trigger s.epics[epic_ids@[m]].stories[j3]]
                            0 <= m < k && s.epics.contains_key(epic_ids@[m]) && 0 <= j3
                                < s.epics[epic_ids@[m]].stories.len() ==> s.stories.contains_key(
                                s.epics[epic_ids@[m]].stories[j3],
                            ) && only_listing(s, epic_ids@[m], j3),
                        forall|j3: int|
                            0 <= j3 < j ==> s.stories.contains_key(#[trigger] s.epics[e].stories[j3])
                                && only_listing(s, e, j3),
                    decreases epic.stories.len() - j,
                {
                    if !self.stories.contains_key(&epic.stories[j]) {
                        assert(!s.stories.contains_key(s.epics[e].stories[j as int]));
                        assert(!listings_sound(s));
                        proof {
                            lemma_well_formed_by_position(s);
                        }
                        return false;
                    }
                    if !listed_only_there(self, &epic_ids, e, j) {
                        assert(s.stories.contains_key(s.epics[e].stories[j as int]));
                        assert(!listings_sound(s));
                        proof {
                            lemma_well_formed_by_position(s);
                        }
                        return false;
                    }
                    j = j + 1;
                }
            }
            k = k + 1;
        }
        proof {
            assert forall|e: u32, j: int| s.epics.contains_key(e) && 0 <= j < s.epics[e].stories.len() implies
                s.stories.contains_key(#[trigger] s.epics[e].stories[j]) && only_listing(s, e, j) by {
                assert(epic_ids@.contains(e));
                let m = choose|m: int| 0 <= m < epic_ids@.len() && epic_ids@[m] == e;
                assert(s.epics[epic_ids@[m]].stories[j] == s.epics[e].stories[j]);
            }
            assert(listings_sound(s));
        }
        let mut k: usize = 0;
        while k < story_ids.len()
            invariant
                s == self@,
                k <= story_ids.len(),
                forall|x: u32| epic_ids@.contains(x) <==> s.epics.contains_key(x),
                forall|x: u32| story_ids@.contains(x) <==> s.stories.contains_key(x),
                forall|m: int| 0 <= m < k ==> listed_somewhere(s, #[trigger] story_ids@[m]),
            decreases story_ids.len() - k,
        {
            let x = story_ids[k];
            if self.epic_of(x).is_none() {
                assert(story_ids@.contains(x));
                return false;
            }
            assert(listed_somewhere(s, story_ids@[k as int]));
            k = k + 1;
        }
        proof {
            assert forall|x: u32| #[trigger] s.stories.contains_key(x) implies exists|e: u32| s.links(e, x) by {
                assert(story_ids@.contains(x));
                let m = choose|m: int| 0 <= m < story_ids@.len() && story_ids@[m] == x;
                assert(listed_somewhere(s, story_ids@[m]));
            }
        }
        true
    }
}

} // verus!
