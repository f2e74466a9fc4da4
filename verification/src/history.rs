use vstd::prelude::*;
use circular_queue::CircularQueue;

verus! {

#[verifier::external_type_specification]
#[verifier::external_body]
#[verifier::reject_recursive_types(T)]
pub struct ExCircularQueue<T>(CircularQueue<T>);

/// What a queue of contact counts holds, oldest first: the items pushed since it was made,
/// of which the queue keeps the last `contact_queue_capacity` ones.
pub uninterp spec fn contact_queue_contents(q: CircularQueue<(u8, u8)>) -> Seq<(u8, u8)>;

/// The capacity a queue of contact counts was made with.
pub uninterp spec fn contact_queue_capacity(q: CircularQueue<(u8, u8)>) -> nat;

/// Calls `CircularQueue::with_capacity`: the queue starts empty, with the given capacity.
/// (It allocates room for that many items, which must fit in `isize::MAX` bytes.)
#[verifier::external_body]
fn contact_queue_new(capacity: usize) -> (q: CircularQueue<(u8, u8)>)
    requires
        capacity * 2 <= isize::MAX,
    ensures
        contact_queue_contents(q) == Seq::<(u8, u8)>::empty(),
        contact_queue_capacity(q) == capacity,
{
    CircularQueue::with_capacity(capacity)
}

/// Calls `CircularQueue::push`: with capacity 0 nothing changes; below capacity the item
/// is appended; at capacity the oldest item is overwritten and handed back.
#[verifier::external_body]
fn contact_queue_push(q: &mut CircularQueue<(u8, u8)>, x: (u8, u8)) -> (popped: Option<(u8, u8)>)
    requires
        contact_queue_contents(*old(q)).len() <= contact_queue_capacity(*old(q)),
    ensures
        contact_queue_capacity(*final(q)) == contact_queue_capacity(*old(q)),
        contact_queue_capacity(*old(q)) == 0 ==> contact_queue_contents(*final(q))
            == contact_queue_contents(*old(q)) && popped is None,
        0 < contact_queue_capacity(*old(q)) && contact_queue_contents(*old(q)).len()
            < contact_queue_capacity(*old(q)) ==> contact_queue_contents(*final(q))
            == contact_queue_contents(*old(q)).push(x) && popped is None,
        0 < contact_queue_capacity(*old(q)) && contact_queue_contents(*old(q)).len()
            == contact_queue_capacity(*old(q)) ==> contact_queue_contents(*final(q))
            == contact_queue_contents(*old(q)).drop_first().push(x) && popped == Some(
            contact_queue_contents(*old(q))[0],
        ),
{
    q.push(x)
}

/// Calls `CircularQueue::iter` and takes its `i`-th item: the iterator goes from the
/// newest item to the oldest.
#[verifier::external_body]
fn contact_queue_nth_newest(q: &CircularQueue<(u8, u8)>, i: usize) -> (r: Option<(u8, u8)>)
    ensures
        i < contact_queue_contents(*q).len() ==> r == Some(
            contact_queue_contents(*q)[contact_queue_contents(*q).len() - 1 - i],
        ),
        i >= contact_queue_contents(*q).len() ==> r is None,
{
    q.iter().nth(i).copied()
}

/// An element of the surface contact history: the number of wall and floor contacts
/// on a previous tick.
#[derive(Debug, Clone, Copy, PartialEq, Eq, Structural)]
pub struct HitHistoryElt {
    /// The number of katamari-to-wall contacts on a previous tick.
    pub num_wall_contacts: u8,
    /// The number of katamari-to-floor contacts on a previous tick.
    pub num_floor_contacts: u8,
}

/// The number of ticks the history remembers.
pub const HIT_HISTORY_CAPACITY: usize = 10;

/// The contacts of the last ticks, used to detect when the katamari might be stuck.
#[derive(Debug)]
pub struct HitHistory {
    data: CircularQueue<(u8, u8)>,
}

/// The history after one more tick is recorded: the oldest tick is forgotten once
/// the history is full.
pub open spec fn history_after_push(s: Seq<(u8, u8)>, x: (u8, u8)) -> Seq<(u8, u8)> {
    if s.len() < HIT_HISTORY_CAPACITY {
        s.push(x)
    } else {
        s.drop_first().push(x)
    }
}

/// The `i`-th most recent tick of a history, if it holds that many.
pub open spec fn history_nth_newest(s: Seq<(u8, u8)>, i: int) -> Option<HitHistoryElt> {
    if 0 <= i < s.len() {
        Some(
            HitHistoryElt {
                num_wall_contacts: s[s.len() - 1 - i].0,
                num_floor_contacts: s[s.len() - 1 - i].1,
            },
        )
    } else {
        None
    }
}

impl HitHistory {
    #[verifier::type_invariant]
    spec fn well_formed(self) -> bool {
        &&& contact_queue_capacity(self.data) == HIT_HISTORY_CAPACITY
        &&& contact_queue_contents(self.data).len() <= HIT_HISTORY_CAPACITY
    }

    /// The recorded ticks, oldest first, as (wall contacts, floor contacts).
    pub closed spec fn view(&self) -> Seq<(u8, u8)> {
        contact_queue_contents(self.data)
    }

    /// A history that remembers nothing yet.
    pub fn new() -> (r: HitHistory)
        ensures
            r@ == Seq::<(u8, u8)>::empty(),
    {
        HitHistory { data: contact_queue_new(HIT_HISTORY_CAPACITY) }
    }

    /// Records the contacts of the current tick.
    pub fn push(&mut self, num_wall_contacts: u8, num_floor_contacts: u8)
        ensures
            final(self)@ == history_after_push(old(self)@, (num_wall_contacts, num_floor_contacts)),
            old(self)@.len() <= HIT_HISTORY_CAPACITY,
            final(self)@.len() <= HIT_HISTORY_CAPACITY,
    {
        proof {
            use_type_invariant(&*self);
        }
        let mut data = contact_queue_new(HIT_HISTORY_CAPACITY);
        std::mem::swap(&mut data, &mut self.data);
        let _ = contact_queue_push(&mut data, (num_wall_contacts, num_floor_contacts));
        self.data = data;
    }

    /// Reads the `i`-th most recent element in the history.
    pub fn get(&self, i: usize) -> (r: Option<HitHistoryElt>)
        ensures
            r == history_nth_newest(self@, i as int),
    {
        match contact_queue_nth_newest(&self.data, i) {
            Some(x) => Some(HitHistoryElt { num_wall_contacts: x.0, num_floor_contacts: x.1 }),
            None => None,
        }
    }
}

impl Default for HitHistory {
    fn default() -> (r: Self)
        ensures
            r@ == Seq::<(u8, u8)>::empty(),
    {
        HitHistory::new()
    }
}

/// Reading the most recent tick right after recording one gives back what was recorded.
pub proof fn law_history_newest_is_last_pushed(s: Seq<(u8, u8)>, wall: u8, floor: u8)
    requires
        s.len() <= HIT_HISTORY_CAPACITY,
    ensures
        history_nth_newest(history_after_push(s, (wall, floor)), 0) == Some(
            HitHistoryElt { num_wall_contacts: wall, num_floor_contacts: floor },
        ),
{
}

/// Recording a tick ages every remembered tick by one, and forgets the oldest one
/// only when the history is full.
pub proof fn law_history_push_ages_ticks(s: Seq<(u8, u8)>, x: (u8, u8), i: int)
    requires
        s.len() <= HIT_HISTORY_CAPACITY,
        0 <= i,
        s.len() < HIT_HISTORY_CAPACITY || i + 1 < HIT_HISTORY_CAPACITY,
    ensures
        history_nth_newest(history_after_push(s, x), i + 1) == history_nth_newest(s, i),
{
}

/// The history never grows beyond its capacity, and grows by one until it is full.
pub proof fn law_history_bounded(s: Seq<(u8, u8)>, x: (u8, u8))
    requires
        s.len() <= HIT_HISTORY_CAPACITY,
    ensures
        history_after_push(s, x).len() <= HIT_HISTORY_CAPACITY,
        s.len() < HIT_HISTORY_CAPACITY ==> history_after_push(s, x).len() == s.len() + 1,
        s.len() == HIT_HISTORY_CAPACITY ==> history_after_push(s, x).len() == HIT_HISTORY_CAPACITY,
{
}

} // verus!
