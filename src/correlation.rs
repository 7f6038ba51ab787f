use vstd::prelude::*;

use crate::content::MessageContent;

verus! {

/// An event of a room's timeline, as the cache or a remote fetch gives it.
#[derive(Clone)]
pub struct TimelineEvent {
    pub event_id: String,
    pub content: MessageContent,
}

pub open spec fn is_cached(cache: Seq<TimelineEvent>, id: Seq<char>) -> bool {
    exists|i: int| 0 <= i < cache.len() && #[trigger] cache[i].event_id@ == id
}

/// Index of the first cached event with id `id`, if any.
pub fn find_cached(cache: &Vec<TimelineEvent>, id: &String) -> (r: Option<usize>)
    ensures
        match r {
            Some(i) => i < cache@.len() && cache@[i as int].event_id@ == id@ && forall|j: int|
                0 <= j < i ==> cache@[j].event_id@ != id@,
            None => !is_cached(cache@, id@),
        },
{
    let mut i: usize = 0;
    while i < cache.len()
        invariant
            i <= cache@.len(),
            forall|j: int| 0 <= j < i ==> cache@[j].event_id@ != id@,
        decreases cache@.len() - i,
    {
        if cache[i].event_id == *id {
            return Some(i);
        }
        i = i + 1;
    }
    None
}

} // verus!
