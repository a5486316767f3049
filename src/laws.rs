//! What holds of the repository operations across calls and for every
//! snapshot.
use vstd::prelude::*;

use crate::error::DaoError;
use crate::models::{EpicView, Snapshot, Status, StoryView};
use crate::snapshot::{
    create_epic_outcome, create_story_outcome, delete_epic_outcome, delete_story_outcome,
    update_epic_status_outcome, update_story_status_outcome, with_id, without_id,
};

verus! {

/// `id` stands in `ids` at exactly one position.
pub open spec fn occurs_once(ids: Seq<u32>, id: u32) -> bool {
    exists|i: int|
        0 <= i < ids.len() && ids[i] == id && (forall|j: int| 0 <= j < ids.len() && ids[j] == id ==> j == i)
}

/// An epic created through the repository is open, has no stories, and is
/// stored under the id returned; creation fails only once every id is used.
pub proof fn lemma_created_epic_is_open(s: Snapshot, epic: EpicView)
    ensures
        ({
            let (r, next) = create_epic_outcome(s, epic);
            &&& r is Ok <==> s.last_item_id < u32::MAX
            &&& r matches Ok(id) ==> {
                &&& id == s.last_item_id + 1
                &&& next.epics.contains_key(id)
                &&& next.epics[id].status == Status::Open
                &&& next.epics[id].stories.len() == 0
            }
        }),
{
}

/// A story created under an existing epic is listed by that epic exactly
/// once, and by no other epic.
pub proof fn lemma_created_story_is_linked(s: Snapshot, story: StoryView, epic_id: u32)
    requires
        s.well_formed(),
    ensures
        ({
            let (r, next) = create_story_outcome(s, story, epic_id);
            &&& r is Ok <==> s.epics.contains_key(epic_id) && s.last_item_id < u32::MAX
            &&& r matches Ok(id) ==> {
                &&& next.stories.contains_key(id)
                &&& occurs_once(next.epics[epic_id].stories, id)
                &&& forall|e: u32| #[trigger] next.links(e, id) ==> e == epic_id
            }
        }),
{
    let (r, next) = create_story_outcome(s, story, epic_id);
    if let Ok(id) = r {
        let old_ids = s.epics[epic_id].stories;
        assert(!old_ids.contains(id)) by {
            if old_ids.contains(id) {
                assert(s.links(epic_id, id));
            }
        }
        let ids = next.epics[epic_id].stories;
        assert(ids == old_ids.push(id));
        assert(ids[ids.len() - 1] == id);
        assert forall|j: int| 0 <= j < ids.len() && ids[j] == id implies j == ids.len() - 1 by {
            if j < ids.len() - 1 {
                assert(old_ids[j] == ids[j]);
            }
        }
        assert forall|e: u32| #[trigger] next.links(e, id) implies e == epic_id by {
            if e != epic_id {
                assert(s.links(e, id));
            }
        }
    }
}

/// Creating a story under a missing epic fails with `EpicNotFound` and
/// changes nothing, `last_item_id` included.
pub proof fn lemma_create_story_needs_epic(s: Snapshot, story: StoryView, epic_id: u32)
    requires
        !s.epics.contains_key(epic_id),
    ensures
        create_story_outcome(s, story, epic_id) == (Err::<u32, DaoError>(DaoError::EpicNotFound(epic_id)), s),
{
}

/// Deleting an existing epic removes it and every story it lists, keeps every
/// other story, and leaves `last_item_id` as it was.
pub proof fn lemma_delete_epic_cascades(s: Snapshot, epic_id: u32)
    requires
        s.epics.contains_key(epic_id),
    ensures
        ({
            let (r, next) = delete_epic_outcome(s, epic_id);
            &&& r is Ok
            &&& !next.epics.contains_key(epic_id)
            &&& forall|sid: u32| #[trigger] s.epics[epic_id].stories.contains(sid) ==> !next.stories.contains_key(sid)
            &&& forall|sid: u32|
                !s.epics[epic_id].stories.contains(sid) ==> next.stories.contains_key(sid)
                    == #[trigger] s.stories.contains_key(sid)
            &&& next.last_item_id == s.last_item_id
        }),
{
}

/// Deleting an existing story through an epic that does not list it fails
/// with `StoryNotInEpic` and changes nothing.
pub proof fn lemma_delete_unlinked_story_fails(s: Snapshot, epic_id: u32, story_id: u32)
    requires
        s.epics.contains_key(epic_id),
        s.stories.contains_key(story_id),
        !s.epics[epic_id].stories.contains(story_id),
    ensures
        delete_story_outcome(s, epic_id, story_id) == (
            Err::<(), DaoError>(DaoError::StoryNotInEpic { epic_id, story_id }),
            s,
        ),
{
}

/// Taking `id` out of a list keeps every other id, and keeps a list without
/// repeats without repeats.
pub proof fn lemma_without_id(ids: Seq<u32>, id: u32)
    ensures
        forall|x: u32| #[trigger] without_id(ids, id).contains(x) <==> ids.contains(x) && x != id,
        ids.no_duplicates() ==> without_id(ids, id).no_duplicates(),
    decreases ids.len(),
{
    if ids.len() > 0 {
        let init = ids.drop_last();
        let last = ids.last();
        lemma_without_id(init, id);
        assert forall|x: u32| ids.contains(x) <==> init.contains(x) || x == last by {
            if ids.contains(x) {
                let j = choose|j: int| 0 <= j < ids.len() && ids[j] == x;
                if j < ids.len() - 1 {
                    assert(init[j] == x);
                }
            }
            if init.contains(x) {
                let j = choose|j: int| 0 <= j < init.len() && init[j] == x;
                assert(ids[j] == x);
            }
            if x == last {
                assert(ids[ids.len() - 1] == x);
            }
        }
        let rest = without_id(init, id);
        if last != id {
            assert forall|x: u32| #[trigger] rest.push(last).contains(x) <==> rest.contains(x) || x == last by {
                if rest.push(last).contains(x) {
                    let j = choose|j: int| 0 <= j < rest.len() + 1 && rest.push(last)[j] == x;
                    if j < rest.len() {
                        assert(rest[j] == x);
                    }
                }
                if rest.contains(x) {
                    let j = choose|j: int| 0 <= j < rest.len() && rest[j] == x;
                    assert(rest.push(last)[j] == x);
                }
                if x == last {
                    assert(rest.push(last)[rest.len() as int] == x);
                }
            }
        }
        if ids.no_duplicates() {
            assert(init.no_duplicates()) by {
                assert forall|i: int, j: int| 0 <= i < init.len() && 0 <= j < init.len() && i != j implies init[i] != init[j] by {
                    assert(ids[i] == init[i] && ids[j] == init[j]);
                }
            }
            assert(!init.contains(last)) by {
                if init.contains(last) {
                    let j = choose|j: int| 0 <= j < init.len() && init[j] == last;
                    assert(ids[j] == ids[ids.len() - 1]);
                }
            }
            if last != id {
                let out = rest.push(last);
                assert forall|i: int, j: int| 0 <= i < out.len() && 0 <= j < out.len() && i != j implies out[i] != out[j] by {
                    if i < rest.len() && j < rest.len() {
                        assert(out[i] == rest[i] && out[j] == rest[j]);
                    } else if i < rest.len() {
                        assert(rest.contains(out[i]));
                    } else {
                        assert(rest.contains(out[j]));
                    }
                }
            }
        }
    }
}

/// Appending an id that is not listed yet keeps a list without repeats
/// without repeats.
proof fn lemma_with_fresh_id(ids: Seq<u32>, id: u32)
    requires
        ids.no_duplicates(),
        !ids.contains(id),
    ensures
        with_id(ids, id) == ids.push(id),
        with_id(ids, id).no_duplicates(),
        forall|x: u32| #[trigger] with_id(ids, id).contains(x) <==> ids.contains(x) || x == id,
{
    let out = ids.push(id);
    assert forall|i: int, j: int| 0 <= i < out.len() && 0 <= j < out.len() && i != j implies out[i] != out[j] by {
        if i < ids.len() && j < ids.len() {
            assert(out[i] == ids[i] && out[j] == ids[j]);
        } else if i < ids.len() {
            assert(ids[i] == out[i]);
        } else {
            assert(ids[j] == out[j]);
        }
    }
    assert forall|x: u32| #[trigger] out.contains(x) <==> ids.contains(x) || x == id by {
        if out.contains(x) {
            let j = choose|j: int| 0 <= j < out.len() && out[j] == x;
            if j < ids.len() {
                assert(ids[j] == x);
            }
        }
        if ids.contains(x) {
            let j = choose|j: int| 0 <= j < ids.len() && ids[j] == x;
            assert(out[j] == x);
        }
        if x == id {
            assert(out[ids.len() as int] == x);
        }
    }
}

/// Creating an epic keeps a well-formed snapshot well formed.
pub proof fn lemma_create_epic_keeps_well_formed(s: Snapshot, epic: EpicView)
    requires
        s.well_formed(),
    ensures
        create_epic_outcome(s, epic).1.well_formed(),
{
    let (r, n) = create_epic_outcome(s, epic);
    if let Ok(id) = r {
        assert(!s.epics.contains_key(id) && !s.stories.contains_key(id));
        assert forall|e: u32, x: u32| #[trigger] n.links(e, x) implies s.links(e, x) by {
            if e == id {
                assert(!n.epics[id].stories.contains(x));
            }
        }
        assert forall|x: u32| #[trigger] n.stories.contains_key(x) implies exists|e: u32| n.links(e, x) by {
            let e = choose|e: u32| s.links(e, x);
            assert(n.links(e, x));
        }
        assert forall|e: u32| #[trigger] n.epics.contains_key(e) implies n.epics[e].stories.no_duplicates() by {
            if e == id {
                assert(n.epics[e].stories.len() == 0);
            }
        }
    }
}

/// Creating a story keeps a well-formed snapshot well formed.
pub proof fn lemma_create_story_keeps_well_formed(s: Snapshot, story: StoryView, epic_id: u32)
    requires
        s.well_formed(),
    ensures
        create_story_outcome(s, story, epic_id).1.well_formed(),
{
    let (r, n) = create_story_outcome(s, story, epic_id);
    if let Ok(id) = r {
        assert(!s.epics.contains_key(id) && !s.stories.contains_key(id));
        let old_ids = s.epics[epic_id].stories;
        assert(!old_ids.contains(id)) by {
            if old_ids.contains(id) {
                assert(s.links(epic_id, id));
            }
        }
        lemma_with_fresh_id(old_ids, id);
        assert forall|e: u32, x: u32| #[trigger] n.links(e, x) implies (x == id && e == epic_id) || (x
            != id && s.links(e, x)) by {
            if e != epic_id {
                assert(s.links(e, x));
            }
        }
        assert forall|e: u32, x: u32| #[trigger] s.links(e, x) implies n.links(e, x) by {
            if e == epic_id {
                assert(with_id(old_ids, id).contains(x));
            }
        }
        assert(n.links(epic_id, id));
        assert forall|x: u32| #[trigger] n.stories.contains_key(x) implies exists|e: u32| n.links(e, x) by {
            if x != id {
                let e = choose|e: u32| s.links(e, x);
                assert(n.links(e, x));
            } else {
                assert(n.links(epic_id, x));
            }
        }
    }
}

/// Deleting an epic keeps a well-formed snapshot well formed.
pub proof fn lemma_delete_epic_keeps_well_formed(s: Snapshot, epic_id: u32)
    requires
        s.well_formed(),
    ensures
        delete_epic_outcome(s, epic_id).1.well_formed(),
{
    let (r, n) = delete_epic_outcome(s, epic_id);
    if r is Ok {
        let gone = s.epics[epic_id].stories;
        assert forall|e: u32, x: u32| #[trigger] n.links(e, x) implies s.links(e, x) && !gone.contains(x) by {
            assert(s.links(e, x));
            if gone.contains(x) {
                assert(s.links(epic_id, x));
            }
        }
        assert forall|x: u32| #[trigger] n.stories.contains_key(x) implies exists|e: u32| n.links(e, x) by {
            let e = choose|e: u32| s.links(e, x);
            assert(!gone.contains(x));
            if e == epic_id {
                assert(s.links(epic_id, x));
            }
            assert(n.links(e, x));
        }
    }
}

/// Deleting a story keeps a well-formed snapshot well formed.
pub proof fn lemma_delete_story_keeps_well_formed(s: Snapshot, epic_id: u32, story_id: u32)
    requires
        s.well_formed(),
    ensures
        delete_story_outcome(s, epic_id, story_id).1.well_formed(),
{
    let (r, n) = delete_story_outcome(s, epic_id, story_id);
    if r is Ok {
        let old_ids = s.epics[epic_id].stories;
        lemma_without_id(old_ids, story_id);
        assert(s.links(epic_id, story_id));
        assert forall|e: u32, x: u32| #[trigger] n.links(e, x) implies s.links(e, x) && x != story_id by {
            if e == epic_id {
                assert(without_id(old_ids, story_id).contains(x));
            } else {
                assert(s.links(e, x));
                if x == story_id {
                    assert(s.links(epic_id, story_id));
                }
            }
        }
        assert forall|x: u32| #[trigger] n.stories.contains_key(x) implies exists|e: u32| n.links(e, x) by {
            let e = choose|e: u32| s.links(e, x);
            if e == epic_id {
                assert(without_id(old_ids, story_id).contains(x));
            }
            assert(n.links(e, x));
        }
    }
}

/// Changing the status of an epic or a story keeps a well-formed snapshot
/// well formed.
pub proof fn lemma_status_updates_keep_well_formed(s: Snapshot, id: u32, status: Status)
    requires
        s.well_formed(),
    ensures
        update_epic_status_outcome(s, id, status).1.well_formed(),
        update_story_status_outcome(s, id, status).1.well_formed(),
{
    let n = update_epic_status_outcome(s, id, status).1;
    assert forall|e: u32, x: u32| #[trigger] n.links(e, x) <==> s.links(e, x) by {}
    assert forall|x: u32| #[trigger] n.stories.contains_key(x) implies exists|e: u32| n.links(e, x) by {
        let e = choose|e: u32| s.links(e, x);
        assert(n.links(e, x));
    }
    let m = update_story_status_outcome(s, id, status).1;
    assert forall|e: u32, x: u32| #[trigger] m.links(e, x) <==> s.links(e, x) by {}
    assert forall|x: u32| #[trigger] m.stories.contains_key(x) implies exists|e: u32| m.links(e, x) by {
        let e = choose|e: u32| s.links(e, x);
        assert(m.links(e, x));
    }
}

/// Identifiers are never reused: no operation lowers `last_item_id`, and an
/// id that a creation hands out is above every id in use before it, so it
/// names no epic or story, present or deleted.
pub proof fn lemma_ids_never_reused(
    s: Snapshot,
    epic: EpicView,
    story: StoryView,
    epic_id: u32,
    story_id: u32,
    status: Status,
)
    requires
        s.ids_bounded(),
    ensures
        create_epic_outcome(s, epic).1.last_item_id >= s.last_item_id,
        create_epic_outcome(s, epic).0 matches Ok(id) ==> id > s.last_item_id && !s.epics.contains_key(id)
            && !s.stories.contains_key(id),
        create_story_outcome(s, story, epic_id).1.last_item_id >= s.last_item_id,
        create_story_outcome(s, story, epic_id).0 matches Ok(id) ==> id > s.last_item_id
            && !s.epics.contains_key(id) && !s.stories.contains_key(id),
        delete_epic_outcome(s, epic_id).1.last_item_id == s.last_item_id,
        delete_story_outcome(s, epic_id, story_id).1.last_item_id == s.last_item_id,
        update_epic_status_outcome(s, epic_id, status).1.last_item_id == s.last_item_id,
        update_story_status_outcome(s, story_id, status).1.last_item_id == s.last_item_id,
{
}

} // verus!
