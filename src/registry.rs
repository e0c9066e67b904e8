use vstd::prelude::*;
use tokio::sync::broadcast::{Receiver, Sender};
use tokio::sync::broadcast::error::SendError;
use crate::envelope::WebSocketMessage;

verus! {

/// tokio's `broadcast::Sender`, opaque here: the publishing side of a topic.
#[verifier::external_type_specification]
#[verifier::external_body]
#[verifier::reject_recursive_types(T)]
pub struct ExSender<T>(Sender<T>);

/// tokio's `broadcast::Receiver`, opaque here: one subscription to a topic.
#[verifier::external_type_specification]
#[verifier::external_body]
#[verifier::reject_recursive_types(T)]
pub struct ExReceiver<T>(Receiver<T>);

/// tokio's `broadcast::error::SendError`, opaque here: a send that found no
/// receiver.
#[verifier::external_type_specification]
#[verifier::external_body]
#[verifier::reject_recursive_types(T)]
pub struct ExSendError<T>(SendError<T>);

/// The capacity that a broadcast channel was made with.
pub uninterp spec fn made_with_capacity(s: Sender<WebSocketMessage>) -> usize;

/// The channel that a receiver subscribes to.
pub uninterp spec fn channel_of_receiver(r: Receiver<WebSocketMessage>) -> Sender<WebSocketMessage>;

/// Relies on tokio's `broadcast::Sender::new`: a new channel made with
/// `capacity`; it panics on a zero capacity and on one above
/// `usize::MAX / 2`.
#[verifier::external_body]
fn new_channel(capacity: usize) -> (r: Sender<WebSocketMessage>)
    requires
        0 < capacity <= usize::MAX / 2,
    ensures
        made_with_capacity(r) == capacity,
{
    Sender::new(capacity)
}

/// Relies on tokio's `broadcast::Sender::send`: never blocks; hands the value
/// to every receiver attached at this instant, or fails when there is none.
pub assume_specification<T>[ Sender::<T>::send ](
    sender: &Sender<T>,
    value: T,
) -> Result<usize, SendError<T>>;

/// Relies on tokio's `broadcast::Sender::subscribe`: a receiver on the
/// sender's channel, which sees the values sent after this call and none
/// before. It panics only with `usize::MAX >> 2` receivers alive on one
/// channel, more than any machine can hold.
#[verifier::external_body]
fn subscribe_to(sender: &Sender<WebSocketMessage>) -> (r: Receiver<WebSocketMessage>)
    ensures
        channel_of_receiver(r) == *sender,
{
    sender.subscribe()
}

/// Relies on tokio's `Clone` for `broadcast::Sender`: another handle on the
/// same channel, which it shares with the original.
pub assume_specification<T>[ <Sender<T> as Clone>::clone ](sender: &Sender<T>) -> (r: Sender<T>)
    ensures
        r == *sender,
;

/// Number of messages a topic buffers for its slowest subscriber (the
/// channel rounds it up to a power of two); a subscriber that falls further
/// behind loses the oldest ones and is told how many.
pub const CHANNEL_CAPACITY: usize = 100;

/// Most subscribers that the registry attaches to one topic at once.
pub const MAX_SUBSCRIBERS: usize = 0x3fff_ffff;

/// What the registry knows of one live topic.
pub struct TopicView {
    /// Identity of the topic: topics created one after the other get distinct
    /// identities until the counter is exhausted.
    pub id: u64,
    /// Subscribers currently attached through the registry.
    pub subscribers: nat,
}

/// The registry as a map from project identifier to its topic.
pub struct RegistryView {
    pub topics: Map<Seq<char>, TopicView>,
    /// The identity the next created topic gets.
    pub next_id: u64,
}

impl RegistryView {
    /// Lookup, creating the topic when it is absent.
    pub open spec fn acquire(self, p: Seq<char>) -> RegistryView {
        if self.topics.contains_key(p) {
            self
        } else {
            RegistryView {
                topics: self.topics.insert(p, TopicView { id: self.next_id, subscribers: 0 }),
                next_id: if self.next_id < u64::MAX { (self.next_id + 1) as u64 } else { self.next_id },
            }
        }
    }

    /// Whether one more subscriber fits on `p`'s topic.
    pub open spec fn can_subscribe(self, p: Seq<char>) -> bool {
        !self.topics.contains_key(p) || self.topics[p].subscribers < MAX_SUBSCRIBERS
    }

    /// Acquire `p`'s topic and attach one subscriber to it.
    pub open spec fn subscribe(self, p: Seq<char>) -> RegistryView {
        let a = self.acquire(p);
        RegistryView {
            topics: a.topics.insert(
                p,
                TopicView { id: a.topics[p].id, subscribers: a.topics[p].subscribers + 1 },
            ),
            next_id: a.next_id,
        }
    }

    /// Detach one subscriber of `p`, evicting the topic when none is left.
    pub open spec fn release(self, p: Seq<char>) -> RegistryView {
        if !self.topics.contains_key(p) {
            self
        } else if self.topics[p].subscribers <= 1 {
            RegistryView { topics: self.topics.remove(p), next_id: self.next_id }
        } else {
            RegistryView {
                topics: self.topics.insert(
                    p,
                    TopicView {
                        id: self.topics[p].id,
                        subscribers: (self.topics[p].subscribers - 1) as nat,
                    },
                ),
                next_id: self.next_id,
            }
        }
    }

    /// Drop the topic of `p`, whatever its subscribers.
    pub open spec fn remove(self, p: Seq<char>) -> RegistryView {
        RegistryView { topics: self.topics.remove(p), next_id: self.next_id }
    }

    /// Identities are below the counter, unless it is exhausted.
    pub open spec fn ids_fresh(self) -> bool {
        forall|k: Seq<char>|
            #![trigger self.topics[k]]
            self.topics.contains_key(k) ==> self.topics[k].id <= self.next_id && (
            self.topics[k].id < self.next_id || self.next_id == u64::MAX)
    }

    pub open spec fn valid(self) -> bool {
        &&& self.ids_fresh()
        &&& forall|k: Seq<char>|
            #![trigger self.topics[k]]
            self.topics.contains_key(k) ==> self.topics[k].subscribers <= MAX_SUBSCRIBERS
    }
}

/// Lookups for one project converge on a single topic: the first creates it,
/// and every later lookup or subscription for that project, whatever other
/// projects are looked up in between, finds the same topic and creates none.
pub proof fn lemma_acquire_converges(v: RegistryView, p: Seq<char>, q: Seq<char>)
    ensures
        v.acquire(p).topics.contains_key(p),
        v.topics.contains_key(p) ==> v.acquire(p) == v,
        v.acquire(p).acquire(p) == v.acquire(p),
        v.acquire(p).acquire(q).topics[p] == v.acquire(p).topics[p],
        v.acquire(p).acquire(q).acquire(p) == v.acquire(p).acquire(q),
        v.acquire(p).subscribe(q).topics[p].id == v.acquire(p).topics[p].id,
{
}

/// When the last subscriber of a project is released its topic is evicted,
/// and the next subscription to that project gets a new topic, of which it
/// is the only subscriber. Needs an identity counter that is not exhausted.
pub proof fn lemma_last_release_evicts(v: RegistryView, p: Seq<char>)
    requires
        v.valid(),
        v.topics.contains_key(p),
        v.topics[p].subscribers == 1,
        v.next_id < u64::MAX,
    ensures
        !v.release(p).topics.contains_key(p),
        v.release(p).subscribe(p).topics.contains_key(p),
        v.release(p).subscribe(p).topics[p].subscribers == 1,
        v.release(p).subscribe(p).topics[p].id != v.topics[p].id,
{
}

struct TopicSlot {
    project_id: String,
    id: u64,
    subscribers: usize,
    sender: Sender<WebSocketMessage>,
}

impl TopicSlot {
    spec fn key(&self) -> Seq<char> {
        self.project_id@
    }

    spec fn topic(&self) -> TopicView {
        TopicView { id: self.id, subscribers: self.subscribers as nat }
    }
}

/// The per-process registry of project topics.
///
/// At most one topic exists per project identifier. Callers that share the
/// registry between tasks hold it behind one lock, taken for one call at a
/// time.
pub struct ConnectionManager {
    slots: Vec<TopicSlot>,
    next_id: u64,
    topics: Ghost<Map<Seq<char>, TopicView>>,
}

impl View for ConnectionManager {
    type V = RegistryView;

    closed spec fn view(&self) -> RegistryView {
        RegistryView { topics: self.topics@, next_id: self.next_id }
    }
}

impl ConnectionManager {
    /// Well-formedness: the slots hold exactly the topics of the view, one
    /// per project identifier.
    pub closed spec fn wf(&self) -> bool {
        &&& forall|i: int|
            #![trigger self.slots@[i]]
            0 <= i < self.slots@.len() ==> {
                &&& self.topics@.contains_key(self.slots@[i].key())
                &&& self.topics@[self.slots@[i].key()] == self.slots@[i].topic()
                &&& made_with_capacity(self.slots@[i].sender) == CHANNEL_CAPACITY
            }
        &&& forall|k: Seq<char>|
            #[trigger] self.topics@.contains_key(k) ==> exists|i: int|
                0 <= i < self.slots@.len() && #[trigger] self.slots@[i].key() == k
        &&& forall|i: int, j: int|
            0 <= i < self.slots@.len() && 0 <= j < self.slots@.len() && i != j
                ==> #[trigger] self.slots@[i].key() != #[trigger] self.slots@[j].key()
        &&& self@.valid()
    }

    /// The channel of `p`'s topic.
    pub closed spec fn sender_of(&self, p: Seq<char>) -> Sender<WebSocketMessage> {
        self.slots@[choose|i: int| 0 <= i < self.slots@.len() && self.slots@[i].key() == p].sender
    }

    /// Every topic present both in `earlier` and in `self` still has the
    /// channel it had in `earlier`.
    pub open spec fn keeps_channels_of(&self, earlier: &ConnectionManager) -> bool {
        forall|q: Seq<char>|
            earlier@.topics.contains_key(q) && self@.topics.contains_key(q) ==> #[trigger] self.sender_of(
                q,
            ) == earlier.sender_of(q)
    }

    proof fn lemma_sender_at(m: ConnectionManager, i: int)
        requires
            m.wf(),
            0 <= i < m.slots@.len(),
        ensures
            m.sender_of(m.slots@[i].key()) == m.slots@[i].sender,
    {
        let p = m.slots@[i].key();
        assert(0 <= i < m.slots@.len() && m.slots@[i].key() == p);
        let j = choose|j: int| 0 <= j < m.slots@.len() && m.slots@[j].key() == p;
        if j != i {
            assert(m.slots@[i].key() != m.slots@[j].key());
        }
    }

    proof fn lemma_index_of(m: ConnectionManager, q: Seq<char>) -> (i: int)
        requires
            m.wf(),
            m@.topics.contains_key(q),
        ensures
            0 <= i < m.slots@.len(),
            m.slots@[i].key() == q,
            m.sender_of(q) == m.slots@[i].sender,
    {
        let i = choose|i: int| 0 <= i < m.slots@.len() && #[trigger] m.slots@[i].key() == q;
        Self::lemma_sender_at(m, i);
        i
    }

    /// While a project stays mapped, its channel never changes: every handle
    /// handed out for it since the topic was created is on one channel.
    pub proof fn lemma_channel_stable(
        a: ConnectionManager,
        b: ConnectionManager,
        c: ConnectionManager,
        p: Seq<char>,
    )
        requires
            b.keeps_channels_of(&a),
            c.keeps_channels_of(&b),
            a@.topics.contains_key(p),
            b@.topics.contains_key(p),
            c@.topics.contains_key(p),
        ensures
            c.sender_of(p) == a.sender_of(p),
    {
        assert(b.sender_of(p) == a.sender_of(p));
        assert(c.sender_of(p) == b.sender_of(p));
    }

    pub fn new() -> (r: Self)
        ensures
            r.wf(),
            r@.topics == Map::<Seq<char>, TopicView>::empty(),
    {
        ConnectionManager { slots: Vec::new(), next_id: 0, topics: Ghost(Map::empty()) }
    }

    /// Position of `p`'s slot, if any.
    fn find(&self, p: &str) -> (r: Option<usize>)
        requires
            self.wf(),
        ensures
            match r {
                Some(i) => i < self.slots@.len() && self.slots@[i as int].key() == p@,
                None => !self@.topics.contains_key(p@),
            },
    {
        let key = p.to_owned();
        let mut i: usize = 0;
        while i < self.slots.len()
            invariant
                self.wf(),
                i <= self.slots@.len(),
                key@ == p@,
                forall|j: int| 0 <= j < i ==> self.slots@[j].key() != p@,
            decreases self.slots@.len() - i,
        {
            if self.slots[i].project_id == key {
                return Some(i);
            }
            i = i + 1;
        }
        None
    }
}


impl ConnectionManager {
    /// Position of `p`'s slot, creating the topic when it is absent.
    fn acquire_slot(&mut self, p: &str) -> (i: usize)
        requires
            old(self).wf(),
        ensures
            final(self).wf(),
            final(self)@ == old(self)@.acquire(p@),
            i < final(self).slots@.len(),
            final(self).slots@[i as int].key() == p@,
            final(self).sender_of(p@) == final(self).slots@[i as int].sender,
            made_with_capacity(final(self).sender_of(p@)) == CHANNEL_CAPACITY,
            final(self).keeps_channels_of(&*old(self)),
            old(self)@.topics.contains_key(p@) ==> final(self).slots@ == old(self).slots@,
    {
        match self.find(p) {
            Some(i) => {
                proof {
                    Self::lemma_sender_at(*self, i as int);
                }
                i
            },
            None => {
                let sender = new_channel(CHANNEL_CAPACITY);
                let slot = TopicSlot {
                    project_id: p.to_owned(),
                    id: self.next_id,
                    subscribers: 0,
                    sender,
                };
                let ghost old_slots = self.slots@;
                self.topics = Ghost(
                    self.topics@.insert(p@, TopicView { id: self.next_id, subscribers: 0 }),
                );
                self.slots.push(slot);
                if self.next_id < u64::MAX {
                    self.next_id = self.next_id + 1;
                }
                let n = self.slots.len() - 1;
                assert(self.slots@[n as int].key() == p@);
                assert forall|k: Seq<char>| #[trigger] self.topics@.contains_key(k) implies exists|
                    j: int,
                | 0 <= j < self.slots@.len() && #[trigger] self.slots@[j].key() == k by {
                    if k != p@ {
                        let j = choose|j: int|
                            0 <= j < old_slots.len() && #[trigger] old_slots[j].key() == k;
                        assert(self.slots@[j] == old_slots[j]);
                    } else {
                        assert(self.slots@[n as int].key() == k);
                    }
                }
                assert(self.wf());
                proof {
                    Self::lemma_sender_at(*self, n as int);
                }
                assert forall|q: Seq<char>|
                    old(self)@.topics.contains_key(q) && self@.topics.contains_key(
                        q,
                    ) implies #[trigger] self.sender_of(q) == old(self).sender_of(q) by {
                    let j = Self::lemma_index_of(*old(self), q);
                    assert(self.slots@[j] == old_slots[j]);
                    Self::lemma_sender_at(*self, j);
                }
                n
            },
        }
    }

    /// Returns the sending side of `project_id`'s topic, creating the topic
    /// when it is absent. An existing topic is never replaced, so every caller
    /// for one project gets a handle on the same topic.
    pub fn get_or_create_channel(&mut self, project_id: &str) -> (r: Sender<WebSocketMessage>)
        requires
            old(self).wf(),
        ensures
            final(self).wf(),
            final(self)@ == old(self)@.acquire(project_id@),
            r == final(self).sender_of(project_id@),
            made_with_capacity(r) == CHANNEL_CAPACITY,
            final(self).keeps_channels_of(&*old(self)),
    {
        let i = self.acquire_slot(project_id);
        self.slots[i].sender.clone()
    }
}


impl ConnectionManager {
    /// Remove the slot at `i` together with its topic.
    fn remove_slot(&mut self, i: usize)
        requires
            old(self).wf(),
            i < old(self).slots@.len(),
        ensures
            final(self).wf(),
            final(self)@ == old(self)@.remove(old(self).slots@[i as int].key()),
            final(self).keeps_channels_of(&*old(self)),
    {
        let ghost old_slots = self.slots@;
        let ghost p = self.slots@[i as int].key();
        self.topics = Ghost(self.topics@.remove(p));
        let _gone = self.slots.remove(i);
        assert forall|j: int| 0 <= j < self.slots@.len() implies {
            &&& self.topics@.contains_key(#[trigger] self.slots@[j].key())
            &&& self.topics@[self.slots@[j].key()] == self.slots@[j].topic()
        } by {
            if j < i {
                assert(self.slots@[j] == old_slots[j]);
            } else {
                assert(self.slots@[j] == old_slots[j + 1]);
            }
        }
        assert forall|k: Seq<char>| #[trigger] self.topics@.contains_key(k) implies exists|
            j: int,
        | 0 <= j < self.slots@.len() && #[trigger] self.slots@[j].key() == k by {
            let j = choose|j: int| 0 <= j < old_slots.len() && #[trigger] old_slots[j].key() == k;
            if j < i {
                assert(self.slots@[j] == old_slots[j]);
            } else {
                assert(j != i);
                assert(self.slots@[j - 1] == old_slots[j]);
            }
        }
        assert forall|a: int, b: int|
            0 <= a < self.slots@.len() && 0 <= b < self.slots@.len() && a != b
                implies #[trigger] self.slots@[a].key() != #[trigger] self.slots@[b].key() by {
            let oa = if a < i { a } else { a + 1 };
            let ob = if b < i { b } else { b + 1 };
            assert(self.slots@[a] == old_slots[oa]);
            assert(self.slots@[b] == old_slots[ob]);
        }
        assert forall|k: Seq<char>| #[trigger] self@.topics.contains_key(k) implies self@.topics[k]
            == old(self)@.topics[k] && old(self)@.topics.contains_key(k) by {}
        assert(self@.valid());
        assert(self.wf());
        assert forall|q: Seq<char>|
            old(self)@.topics.contains_key(q) && self@.topics.contains_key(
                q,
            ) implies #[trigger] self.sender_of(q) == old(self).sender_of(q) by {
            let j = Self::lemma_index_of(*old(self), q);
            assert(j != i);
            if j < i {
                assert(self.slots@[j] == old_slots[j]);
                Self::lemma_sender_at(*self, j);
            } else {
                assert(self.slots@[j - 1] == old_slots[j]);
                Self::lemma_sender_at(*self, j - 1);
            }
        }
    }

    /// Set the subscriber count of the slot at `i`.
    fn set_subscribers(&mut self, i: usize, n: usize)
        requires
            old(self).wf(),
            i < old(self).slots@.len(),
            n <= MAX_SUBSCRIBERS,
        ensures
            final(self).wf(),
            final(self)@ == (RegistryView {
                topics: old(self)@.topics.insert(
                    old(self).slots@[i as int].key(),
                    TopicView { id: old(self).slots@[i as int].id, subscribers: n as nat },
                ),
                next_id: old(self)@.next_id,
            }),
            final(self).slots@.len() == old(self).slots@.len(),
            final(self).slots@[i as int].key() == old(self).slots@[i as int].key(),
            final(self).slots@[i as int].sender == old(self).slots@[i as int].sender,
            final(self).keeps_channels_of(&*old(self)),
    {
        let ghost old_slots = self.slots@;
        let ghost p = self.slots@[i as int].key();
        self.topics = Ghost(
            self.topics@.insert(p, TopicView { id: self.slots@[i as int].id, subscribers: n as nat }),
        );
        self.slots[i].subscribers = n;
        assert forall|j: int| 0 <= j < self.slots@.len() implies {
            &&& self.topics@.contains_key(#[trigger] self.slots@[j].key())
            &&& self.topics@[self.slots@[j].key()] == self.slots@[j].topic()
        } by {
            if j != i {
                assert(self.slots@[j] == old_slots[j]);
                assert(old_slots[j].key() != old_slots[i as int].key());
            }
        }
        assert forall|k: Seq<char>| #[trigger] self.topics@.contains_key(k) implies exists|
            j: int,
        | 0 <= j < self.slots@.len() && #[trigger] self.slots@[j].key() == k by {
            let j = choose|j: int| 0 <= j < old_slots.len() && #[trigger] old_slots[j].key() == k;
            assert(self.slots@[j].key() == old_slots[j].key());
        }
        assert forall|a: int, b: int|
            0 <= a < self.slots@.len() && 0 <= b < self.slots@.len() && a != b
                implies #[trigger] self.slots@[a].key() != #[trigger] self.slots@[b].key() by {
            assert(self.slots@[a].key() == old_slots[a].key());
            assert(self.slots@[b].key() == old_slots[b].key());
        }
        assert(old_slots[i as int].topic() == old(self)@.topics[p]);
        assert forall|k: Seq<char>| #[trigger] self@.topics.contains_key(k) && k != p implies self@.topics[k]
            == old(self)@.topics[k] && old(self)@.topics.contains_key(k) by {}
        assert(self@.valid());
        assert(self.wf());
        assert forall|q: Seq<char>|
            old(self)@.topics.contains_key(q) && self@.topics.contains_key(
                q,
            ) implies #[trigger] self.sender_of(q) == old(self).sender_of(q) by {
            let j = Self::lemma_index_of(*old(self), q);
            assert(self.slots@[j].sender == old_slots[j].sender);
            assert(self.slots@[j].key() == old_slots[j].key());
            Self::lemma_sender_at(*self, j);
        }
    }

    /// Attaches one subscriber to `project_id`'s topic, creating the topic
    /// when it is absent, and returns its receiving side: it observes every
    /// message published from now on and none before. Gives `None`, and
    /// changes nothing, when the topic already holds `MAX_SUBSCRIBERS`.
    pub fn subscribe(&mut self, project_id: &str) -> (r: Option<Receiver<WebSocketMessage>>)
        requires
            old(self).wf(),
        ensures
            final(self).wf(),
            r.is_some() == old(self)@.can_subscribe(project_id@),
            r.is_some() ==> final(self)@ == old(self)@.subscribe(project_id@),
            r.is_none() ==> final(self)@ == old(self)@,
            r matches Some(rx) ==> channel_of_receiver(rx) == final(self).sender_of(project_id@),
            made_with_capacity(final(self).sender_of(project_id@)) == CHANNEL_CAPACITY,
            final(self).keeps_channels_of(&*old(self)),
    {
        if let Some(i) = self.find(project_id) {
            if self.slots[i].subscribers >= MAX_SUBSCRIBERS {
                proof {
                    Self::lemma_sender_at(*self, i as int);
                }
                return None;
            }
        }
        let i = self.acquire_slot(project_id);
        assert(self@.topics[self.slots@[i as int].key()] == self.slots@[i as int].topic());
        assert(self.slots@[i as int].subscribers < MAX_SUBSCRIBERS);
        let n = self.slots[i].subscribers + 1;
        self.set_subscribers(i, n);
        assert(self@.topics =~= old(self)@.subscribe(project_id@).topics);
        proof {
            Self::lemma_sender_at(*self, i as int);
        }
        Some(subscribe_to(&self.slots[i].sender))
    }

    /// Detaches one subscriber of `project_id` and, within the same call,
    /// evicts the topic when no subscriber is left. Returns whether it was
    /// evicted. An absent project is left as it is.
    pub fn release(&mut self, project_id: &str) -> (evicted: bool)
        requires
            old(self).wf(),
        ensures
            final(self).wf(),
            final(self)@ == old(self)@.release(project_id@),
            evicted == (old(self)@.topics.contains_key(project_id@)
                && old(self)@.topics[project_id@].subscribers <= 1),
            final(self).keeps_channels_of(&*old(self)),
    {
        match self.find(project_id) {
            None => false,
            Some(i) => {
                let n = self.slots[i].subscribers;
                assert(self@.topics[self.slots@[i as int].key()] == self.slots@[i as int].topic());
                if n <= 1 {
                    self.remove_slot(i);
                    true
                } else {
                    self.set_subscribers(i, n - 1);
                    false
                }
            },
        }
    }

    /// Evicts `project_id`'s topic when it has no subscriber, and returns
    /// whether it did. A topic with subscribers attached is left as it is,
    /// so none of them loses a message.
    pub fn remove_channel(&mut self, project_id: &str) -> (evicted: bool)
        requires
            old(self).wf(),
        ensures
            final(self).wf(),
            evicted == (old(self)@.topics.contains_key(project_id@)
                && old(self)@.topics[project_id@].subscribers == 0),
            evicted ==> final(self)@ == old(self)@.remove(project_id@),
            !evicted ==> final(self)@ == old(self)@,
            final(self).keeps_channels_of(&*old(self)),
    {
        match self.find(project_id) {
            None => false,
            Some(i) => {
                if self.slots[i].subscribers == 0 {
                    self.remove_slot(i);
                    true
                } else {
                    false
                }
            },
        }
    }

    /// Hands `message` to `project_id`'s topic, when there is one, without
    /// waiting on any subscriber. Never creates a topic. Returns whether a
    /// topic took the message.
    pub fn publish(&self, project_id: &str, message: WebSocketMessage) -> (handed: bool)
        requires
            self.wf(),
        ensures
            handed == self@.topics.contains_key(project_id@),
    {
        match self.find(project_id) {
            None => false,
            Some(i) => {
                let _ = self.slots[i].sender.send(message);
                true
            },
        }
    }

    /// Identity of `project_id`'s topic, if there is one.
    pub fn topic_id(&self, project_id: &str) -> (r: Option<u64>)
        requires
            self.wf(),
        ensures
            r == (if self@.topics.contains_key(project_id@) {
                Some(self@.topics[project_id@].id)
            } else {
                None
            }),
    {
        match self.find(project_id) {
            None => None,
            Some(i) => Some(self.slots[i].id),
        }
    }

    /// Subscribers attached to `project_id`'s topic; zero when it has none.
    pub fn subscriber_count(&self, project_id: &str) -> (r: usize)
        requires
            self.wf(),
        ensures
            r == (if self@.topics.contains_key(project_id@) {
                self@.topics[project_id@].subscribers
            } else {
                0
            }),
    {
        match self.find(project_id) {
            None => 0,
            Some(i) => self.slots[i].subscribers,
        }
    }
}

} // verus!
