//! Fan-out of published states to a changing set of subscribers, each with its own
//! bounded queue.
use vstd::prelude::*;
use crate::game_info::{GameInfo, GameInfoView, default_info};

verus! {

/// `q` with `x` appended; when `q` already holds `c` states its oldest one is dropped.
pub open spec fn bounded_push(q: Seq<GameInfoView>, x: GameInfoView, c: nat) -> Seq<GameInfoView> {
    if q.len() < c {
        q.push(x)
    } else {
        q.drop_first().push(x)
    }
}

/// `q` after each state of `xs`, in order, was pushed with `bounded_push`.
pub open spec fn bounded_extend(q: Seq<GameInfoView>, xs: Seq<GameInfoView>, c: nat) -> Seq<GameInfoView>
    decreases xs.len(),
{
    if xs.len() == 0 {
        q
    } else {
        bounded_push(bounded_extend(q, xs.drop_last(), c), xs.last(), c)
    }
}

/// The last `n` elements of `s` (all of `s` when it is shorter).
pub open spec fn last_n(s: Seq<GameInfoView>, n: nat) -> Seq<GameInfoView> {
    if s.len() <= n {
        s
    } else {
        s.subrange(s.len() - n, s.len() as int)
    }
}

pub struct SubscriberView {
    pub id: u64,
    /// Undelivered states, oldest first.
    pub queue: Seq<GameInfoView>,
    /// False once the receiving end is gone; such a subscriber is removed at the next
    /// publish.
    pub connected: bool,
}

pub open spec fn deliver(s: SubscriberView, x: GameInfoView, c: nat) -> SubscriberView {
    SubscriberView { id: s.id, queue: bounded_push(s.queue, x, c), connected: s.connected }
}

/// The subscribers after `x` was published: the disconnected ones are gone and every
/// other one has `x` queued.
pub open spec fn deliver_all(subs: Seq<SubscriberView>, x: GameInfoView, c: nat) -> Seq<SubscriberView>
    decreases subs.len(),
{
    if subs.len() == 0 {
        subs
    } else {
        let rest = deliver_all(subs.drop_last(), x, c);
        if subs.last().connected {
            rest.push(deliver(subs.last(), x, c))
        } else {
            rest
        }
    }
}

/// Index of the subscriber with identifier `id`, or -1.
pub open spec fn position(subs: Seq<SubscriberView>, id: u64) -> int
    decreases subs.len(),
{
    if subs.len() == 0 {
        -1
    } else if subs.last().id == id {
        subs.len() - 1
    } else {
        position(subs.drop_last(), id)
    }
}

pub open spec fn sub_of(subs: Seq<SubscriberView>, id: u64) -> Option<SubscriberView> {
    let p = position(subs, id);
    if 0 <= p < subs.len() {
        Some(subs[p])
    } else {
        None
    }
}

pub struct HubView {
    /// The bound of every subscriber's queue.
    pub capacity: nat,
    pub subscribers: Seq<SubscriberView>,
    /// The state published last; a new subscriber starts with it.
    pub latest: GameInfoView,
    /// The identifier that the next subscriber gets.
    pub next_id: u64,
}

pub open spec fn hub_wf(h: HubView) -> bool {
    &&& h.capacity > 0
    &&& forall|i: int, j: int|
        0 <= i < j < h.subscribers.len() ==> #[trigger] h.subscribers[i].id < #[trigger] h.subscribers[j].id
    &&& forall|i: int| 0 <= i < h.subscribers.len() ==> #[trigger] h.subscribers[i].id < h.next_id
    &&& forall|i: int| 0 <= i < h.subscribers.len() ==> #[trigger] h.subscribers[i].queue.len() <= h.capacity
}

/// The hub after `x` was published.
pub open spec fn published(h: HubView, x: GameInfoView) -> HubView {
    HubView {
        capacity: h.capacity,
        subscribers: deliver_all(h.subscribers, x, h.capacity),
        latest: x,
        next_id: h.next_id,
    }
}

/// The hub after each state of `xs` was published, in order.
pub open spec fn published_all(h: HubView, xs: Seq<GameInfoView>) -> HubView
    decreases xs.len(),
{
    if xs.len() == 0 {
        h
    } else {
        published(published_all(h, xs.drop_last()), xs.last())
    }
}

/// The hub after a new subscriber registered: it gets the next identifier and its queue
/// starts with the latest state.
pub open spec fn subscribed(h: HubView) -> HubView {
    HubView {
        capacity: h.capacity,
        subscribers: h.subscribers.push(
            SubscriberView { id: h.next_id, queue: seq![h.latest], connected: true },
        ),
        latest: h.latest,
        next_id: (h.next_id + 1) as u64,
    }
}

/// What `recv` hands to subscriber `id`: the oldest state of its queue.
pub open spec fn received(h: HubView, id: u64) -> Option<GameInfoView> {
    let p = position(h.subscribers, id);
    if 0 <= p < h.subscribers.len() && h.subscribers[p].queue.len() > 0 {
        Some(h.subscribers[p].queue[0])
    } else {
        None
    }
}

pub open spec fn after_recv(h: HubView, id: u64) -> HubView {
    let p = position(h.subscribers, id);
    if 0 <= p < h.subscribers.len() && h.subscribers[p].queue.len() > 0 {
        let s = h.subscribers[p];
        HubView {
            subscribers: h.subscribers.update(
                p,
                SubscriberView { id: s.id, queue: s.queue.drop_first(), connected: s.connected },
            ),
            ..h
        }
    } else {
        h
    }
}

pub open spec fn after_disconnect(h: HubView, id: u64) -> HubView {
    let p = position(h.subscribers, id);
    if 0 <= p < h.subscribers.len() {
        let s = h.subscribers[p];
        HubView {
            subscribers: h.subscribers.update(
                p,
                SubscriberView { id: s.id, queue: s.queue, connected: false },
            ),
            ..h
        }
    } else {
        h
    }
}

pub open spec fn info_view(g: Option<GameInfo>) -> Option<GameInfoView> {
    match g {
        Some(x) => Some(x@),
        None => None,
    }
}

pub open spec fn queue_view(q: Seq<GameInfo>) -> Seq<GameInfoView> {
    q.map_values(|g: GameInfo| g@)
}

pub open spec fn ids_ascending(subs: Seq<SubscriberView>) -> bool {
    forall|i: int, j: int| 0 <= i < j < subs.len() ==> #[trigger] subs[i].id < #[trigger] subs[j].id
}

pub open spec fn queues_within(subs: Seq<SubscriberView>, c: nat) -> bool {
    forall|i: int| 0 <= i < subs.len() ==> #[trigger] subs[i].queue.len() <= c
}

proof fn lemma_position_bounds(subs: Seq<SubscriberView>, id: u64)
    ensures
        -1 <= position(subs, id) < subs.len(),
        position(subs, id) >= 0 ==> subs[position(subs, id)].id == id,
    decreases subs.len(),
{
    if subs.len() > 0 && subs.last().id != id {
        lemma_position_bounds(subs.drop_last(), id);
    }
}

proof fn lemma_position_absent(subs: Seq<SubscriberView>, id: u64)
    requires
        forall|j: int| 0 <= j < subs.len() ==> #[trigger] subs[j].id != id,
    ensures
        position(subs, id) == -1,
    decreases subs.len(),
{
    if subs.len() > 0 {
        assert(subs.last().id != id);
        lemma_position_absent(subs.drop_last(), id);
    }
}

/// Publishing keeps identifiers ascending, never invents one, and keeps every queue
/// within its bound.
proof fn lemma_deliver_all_wf(subs: Seq<SubscriberView>, x: GameInfoView, c: nat)
    requires
        c > 0,
        ids_ascending(subs),
        queues_within(subs, c),
    ensures
        ids_ascending(deliver_all(subs, x, c)),
        queues_within(deliver_all(subs, x, c), c),
        deliver_all(subs, x, c).len() <= subs.len(),
        subs.len() > 0 ==> forall|j: int|
            0 <= j < deliver_all(subs, x, c).len() ==> #[trigger] deliver_all(subs, x, c)[j].id <= subs.last().id,
    decreases subs.len(),
{
    if subs.len() > 0 {
        let t = subs.drop_last();
        lemma_deliver_all_wf(t, x, c);
        let rest = deliver_all(t, x, c);
        if t.len() > 0 {
            assert(t.last().id < subs.last().id);
        }
        if subs.last().connected {
            let res = rest.push(deliver(subs.last(), x, c));
            assert forall|i: int, j: int| 0 <= i < j < res.len() implies #[trigger] res[i].id < #[trigger] res[j].id by {
                if j == res.len() - 1 {
                    assert(res[i] == rest[i]);
                } else {
                    assert(res[i] == rest[i] && res[j] == rest[j]);
                }
            }
            assert forall|j: int| 0 <= j < res.len() implies #[trigger] res[j].queue.len() <= c by {
                if j < rest.len() {
                    assert(res[j] == rest[j]);
                }
            }
            assert forall|j: int| 0 <= j < res.len() implies #[trigger] res[j].id <= subs.last().id by {
                if j < rest.len() {
                    assert(res[j] == rest[j]);
                }
            }
        }
    }
}

/// What publishing does to one subscriber: a connected one gets the state queued, a
/// disconnected one is gone.
proof fn lemma_deliver_all_sub(subs: Seq<SubscriberView>, x: GameInfoView, c: nat, id: u64)
    requires
        c > 0,
        ids_ascending(subs),
        queues_within(subs, c),
    ensures
        sub_of(deliver_all(subs, x, c), id) == match sub_of(subs, id) {
            Some(s) => if s.connected {
                Some(deliver(s, x, c))
            } else {
                None::<SubscriberView>
            },
            None => None,
        },
    decreases subs.len(),
{
    if subs.len() > 0 {
        let t = subs.drop_last();
        let l = subs.last();
        let rest = deliver_all(t, x, c);
        lemma_deliver_all_sub(t, x, c, id);
        lemma_deliver_all_wf(t, x, c);
        lemma_position_bounds(rest, id);
        lemma_position_bounds(t, id);
        if l.id == id {
            if !l.connected {
                assert forall|j: int| 0 <= j < rest.len() implies #[trigger] rest[j].id != id by {
                    if t.len() > 0 {
                        assert(t.last().id < l.id);
                    }
                }
                lemma_position_absent(rest, id);
            }
        } else if l.connected {
            let res = rest.push(deliver(l, x, c));
            assert(res.drop_last() =~= rest);
            let p = position(rest, id);
            if p >= 0 {
                assert(res[p] == rest[p]);
            }
        }
    }
}

/// A bounded queue always holds the most recent states: after pushing `xs` onto `q`, it
/// holds the last `c` states of `q` followed by `xs` (all of them when there are fewer).
pub proof fn lemma_bounded_extend(q: Seq<GameInfoView>, xs: Seq<GameInfoView>, c: nat)
    requires
        c > 0,
        q.len() <= c,
    ensures
        bounded_extend(q, xs, c) == last_n(q + xs, c),
    decreases xs.len(),
{
    if xs.len() > 0 {
        let ys = xs.drop_last();
        lemma_bounded_extend(q, ys, c);
        let s1 = q + ys;
        let s = q + xs;
        assert(s =~= s1.push(xs.last()));
        let b = last_n(s1, c);
        if s1.len() < c {
            assert(bounded_push(b, xs.last(), c) =~= s);
        } else {
            assert(bounded_push(b, xs.last(), c) =~= s.subrange(s.len() - c, s.len() as int));
        }
    }
}

/// Publishing a run of states: every subscriber that was connected beforehand is still
/// there, with its queue extended by the run as `bounded_extend` says.
pub proof fn lemma_publish_all(h: HubView, xs: Seq<GameInfoView>, id: u64)
    requires
        hub_wf(h),
        sub_of(h.subscribers, id) matches Some(s) && s.connected,
    ensures
        hub_wf(published_all(h, xs)),
        published_all(h, xs).capacity == h.capacity,
        sub_of(published_all(h, xs).subscribers, id) == Some(
            SubscriberView {
                id,
                queue: bounded_extend(sub_of(h.subscribers, id)->0.queue, xs, h.capacity),
                connected: true,
            },
        ),
    decreases xs.len(),
{
    lemma_position_bounds(h.subscribers, id);
    if xs.len() > 0 {
        let ys = xs.drop_last();
        lemma_publish_all(h, ys, id);
        let h1 = published_all(h, ys);
        lemma_deliver_all_wf(h1.subscribers, xs.last(), h1.capacity);
        lemma_deliver_all_sub(h1.subscribers, xs.last(), h1.capacity, id);
        let res = deliver_all(h1.subscribers, xs.last(), h1.capacity);
        if h1.subscribers.len() > 0 {
            assert(h1.subscribers.last().id < h1.next_id);
        }
        assert forall|i: int| 0 <= i < res.len() implies #[trigger] res[i].id < h1.next_id by {
            assert(res[i].id <= h1.subscribers.last().id);
        }
    }
}

/// Fan-out: a connected subscriber whose queue has room for a run of publishes receives
/// every state of the run, in publish order, after what it already held.
pub proof fn lemma_fan_out(h: HubView, xs: Seq<GameInfoView>, id: u64)
    requires
        hub_wf(h),
        sub_of(h.subscribers, id) matches Some(s) && s.connected && s.queue.len() + xs.len() <= h.capacity,
    ensures
        sub_of(published_all(h, xs).subscribers, id) == Some(
            SubscriberView { id, queue: sub_of(h.subscribers, id)->0.queue + xs, connected: true },
        ),
{
    let q = sub_of(h.subscribers, id)->0.queue;
    lemma_publish_all(h, xs, id);
    lemma_bounded_extend(q, xs, h.capacity);
}

/// Backpressure: a connected subscriber that never drains, after at least `capacity`
/// publishes, holds exactly the `capacity` most recent states, oldest first.
pub proof fn lemma_backpressure(h: HubView, xs: Seq<GameInfoView>, id: u64)
    requires
        hub_wf(h),
        sub_of(h.subscribers, id) matches Some(s) && s.connected,
        xs.len() >= h.capacity,
    ensures
        sub_of(published_all(h, xs).subscribers, id) == Some(
            SubscriberView { id, queue: xs.subrange(xs.len() - h.capacity, xs.len() as int), connected: true },
        ),
{
    let q = sub_of(h.subscribers, id)->0.queue;
    lemma_position_bounds(h.subscribers, id);
    lemma_publish_all(h, xs, id);
    lemma_bounded_extend(q, xs, h.capacity);
    let s = q + xs;
    let c = h.capacity;
    if s.len() > c {
        assert(s.subrange(s.len() - c, s.len() as int) =~= xs.subrange(xs.len() - c, xs.len() as int));
    } else {
        assert(q.len() == 0 && xs.len() == c);
        assert(s =~= xs.subrange(0, xs.len() as int));
    }
}

/// A subscriber that registers after some states were published never sees the earlier
/// ones: its queue only ever holds the state that was latest when it registered and
/// states published after that.
pub proof fn lemma_late_subscriber(h: HubView, xs: Seq<GameInfoView>)
    requires
        hub_wf(h),
        h.next_id < u64::MAX,
    ensures
        hub_wf(subscribed(h)),
        sub_of(published_all(subscribed(h), xs).subscribers, h.next_id) == Some(
            SubscriberView { id: h.next_id, queue: last_n(seq![h.latest] + xs, h.capacity), connected: true },
        ),
{
    let h1 = subscribed(h);
    let id = h.next_id;
    assert forall|i: int, j: int| 0 <= i < j < h1.subscribers.len() implies #[trigger] h1.subscribers[i].id
        < #[trigger] h1.subscribers[j].id by {
        if j == h1.subscribers.len() - 1 {
            assert(h1.subscribers[i] == h.subscribers[i]);
        } else {
            assert(h1.subscribers[i] == h.subscribers[i] && h1.subscribers[j] == h.subscribers[j]);
        }
    }
    assert forall|i: int| 0 <= i < h1.subscribers.len() implies #[trigger] h1.subscribers[i].id < h1.next_id by {
        if i < h.subscribers.len() {
            assert(h1.subscribers[i] == h.subscribers[i]);
        }
    }
    assert forall|i: int| 0 <= i < h1.subscribers.len() implies #[trigger] h1.subscribers[i].queue.len() <= h1.capacity by {
        if i < h.subscribers.len() {
            assert(h1.subscribers[i] == h.subscribers[i]);
        }
    }
    assert(h1.subscribers.last().id == id);
    lemma_publish_all(h1, xs, id);
    lemma_bounded_extend(seq![h.latest], xs, h.capacity);
}

struct Subscriber {
    id: u64,
    queue: Vec<GameInfo>,
    connected: bool,
}

impl View for Subscriber {
    type V = SubscriberView;

    closed spec fn view(&self) -> SubscriberView {
        SubscriberView { id: self.id, queue: queue_view(self.queue@), connected: self.connected }
    }
}

impl Subscriber {
    fn deliver(&mut self, x: GameInfo, c: usize)
        requires
            c > 0,
            old(self)@.queue.len() <= c,
        ensures
            final(self)@ == deliver(old(self)@, x@, c as nat),
    {
        let ghost q0 = queue_view(self.queue@);
        if self.queue.len() >= c {
            self.queue.remove(0);
            assert(queue_view(self.queue@) =~= q0.drop_first());
        }
        let ghost q1 = queue_view(self.queue@);
        self.queue.push(x);
        assert(queue_view(self.queue@) =~= q1.push(x@));
    }

    fn pop(&mut self) -> (r: Option<GameInfo>)
        ensures
            old(self)@.queue.len() > 0 ==> info_view(r) == Some(old(self)@.queue[0]) && final(self)@
                == (SubscriberView { id: old(self)@.id, queue: old(self)@.queue.drop_first(), connected: old(self)@.connected }),
            old(self)@.queue.len() == 0 ==> r is None && final(self)@ == old(self)@,
    {
        if self.queue.len() == 0 {
            None
        } else {
            let ghost q0 = queue_view(self.queue@);
            let g = self.queue.remove(0);
            assert(queue_view(self.queue@) =~= q0.drop_first());
            Some(g)
        }
    }
}

spec fn subs_view(v: Seq<Subscriber>) -> Seq<SubscriberView> {
    v.map_values(|s: Subscriber| s@)
}

/// Delivers every published state to every live subscriber, dropping a subscriber's
/// oldest state when its queue is full.
pub struct BroadcastHub {
    capacity: usize,
    subscribers: Vec<Subscriber>,
    latest: GameInfo,
    next_id: u64,
}

impl View for BroadcastHub {
    type V = HubView;

    closed spec fn view(&self) -> HubView {
        HubView {
            capacity: self.capacity as nat,
            subscribers: subs_view(self.subscribers@),
            latest: self.latest@,
            next_id: self.next_id,
        }
    }
}

impl BroadcastHub {
    #[verifier::type_invariant]
    spec fn inv(&self) -> bool {
        hub_wf(self@)
    }

    /// A hub whose subscribers each queue at most `capacity` states. The default state is
    /// published at once, so whoever subscribes before the first real state gets it.
    pub fn new(capacity: usize) -> (r: Self)
        requires
            capacity > 0,
        ensures
            hub_wf(r@),
            r@ == published(
                HubView { capacity: capacity as nat, subscribers: Seq::empty(), latest: default_info(), next_id: 0 },
                default_info(),
            ),
    {
        let r = BroadcastHub { capacity, subscribers: Vec::new(), latest: GameInfo::default(), next_id: 0 };
        assert(subs_view(r.subscribers@) =~= Seq::<SubscriberView>::empty());
        r
    }

    /// The bound of every subscriber's queue.
    pub fn capacity(&self) -> (r: usize)
        ensures
            r == self@.capacity,
    {
        self.capacity
    }

    /// Index of subscriber `id`, searching from the newest.
    fn find(&self, id: u64) -> (r: Option<usize>)
        ensures
            match r {
                Some(k) => k == position(self@.subscribers, id) && k < self.subscribers@.len(),
                None => position(self@.subscribers, id) == -1,
            },
    {
        let ghost subs = self@.subscribers;
        let mut i = self.subscribers.len();
        assert(subs.subrange(0, i as int) =~= subs);
        while i > 0
            invariant
                i <= self.subscribers@.len(),
                subs == subs_view(self.subscribers@),
                position(subs, id) == position(subs.subrange(0, i as int), id),
            decreases i,
        {
            proof {
                let pre = subs.subrange(0, i as int);
                assert(pre.drop_last() =~= subs.subrange(0, i - 1));
            }
            if self.subscribers[i - 1].id == id {
                return Some(i - 1);
            }
            i = i - 1;
        }
        assert(subs.subrange(0, 0) =~= Seq::<SubscriberView>::empty());
        None
    }
    /// Whether subscriber `id` is registered (a disconnected one stays until the next
    /// publish).
    pub fn is_subscribed(&self, id: u64) -> (r: bool)
        ensures
            r == (position(self@.subscribers, id) >= 0),
    {
        self.find(id).is_some()
    }

    /// Registers a new subscriber and returns its identifier; its queue starts with the
    /// latest state. `None` once every identifier has been handed out.
    pub fn subscribe(&mut self) -> (r: Option<u64>)
        ensures
            hub_wf(final(self)@),
            match r {
                Some(id) => id == old(self)@.next_id && old(self)@.next_id < u64::MAX
                    && final(self)@ == subscribed(old(self)@),
                None => old(self)@.next_id == u64::MAX && final(self)@ == old(self)@,
            },
    {
        proof {
            use_type_invariant(&*self);
        }
        if self.next_id == u64::MAX {
            return None;
        }
        let id = self.next_id;
        let mut queue: Vec<GameInfo> = Vec::new();
        queue.push(self.latest.clone());
        assert(queue_view(queue@) =~= seq![self.latest@]);
        let mut subs: Vec<Subscriber> = Vec::new();
        std::mem::swap(&mut subs, &mut self.subscribers);
        let ghost before = subs_view(subs@);
        subs.push(Subscriber { id, queue, connected: true });
        assert(subs_view(subs@) =~= before.push(
            SubscriberView { id, queue: seq![old(self)@.latest], connected: true },
        ));
        self.next_id = id + 1;
        self.subscribers = subs;
        Some(id)
    }

    /// Sends `state` to every live subscriber and removes the disconnected ones. A full
    /// queue drops its oldest state to make room.
    pub fn publish(&mut self, state: GameInfo)
        ensures
            hub_wf(final(self)@),
            final(self)@ == published(old(self)@, state@),
    {
        proof {
            use_type_invariant(&*self);
        }
        let ghost h = self@;
        let mut subs: Vec<Subscriber> = Vec::new();
        std::mem::swap(&mut subs, &mut self.subscribers);
        let ghost olds = subs_view(subs@);
        assert(olds == h.subscribers);
        let cap = self.capacity;
        let n = subs.len();
        let mut i: usize = 0;
        let mut k: usize = 0;
        assert(deliver_all(olds.subrange(0, 0), state@, cap as nat) =~= Seq::<SubscriberView>::empty());
        assert(olds.subrange(0, n as int) =~= olds);
        assert(subs_view(subs@).len() == subs@.len());
        while k < n
            invariant
                cap > 0,
                n == olds.len(),
                k <= n,
                queues_within(olds, cap as nat),
                subs_view(subs@) == deliver_all(olds.subrange(0, k as int), state@, cap as nat)
                    + olds.subrange(k as int, n as int),
                i == deliver_all(olds.subrange(0, k as int), state@, cap as nat).len(),
                subs@.len() == i + (n - k),
            decreases n - k,
        {
            let ghost pre = deliver_all(olds.subrange(0, k as int), state@, cap as nat);
            let ghost cur = subs_view(subs@);
            proof {
                assert(olds.subrange(0, k + 1).drop_last() =~= olds.subrange(0, k as int));
                assert(olds.subrange(0, k + 1).last() == olds[k as int]);
                assert(cur[i as int] == olds[k as int]);
                assert(olds.subrange(k + 1, n as int).len() == n - k - 1);
            }
            let ghost sv = subs@;
            if !subs[i].connected {
                subs.remove(i);
                assert(subs_view(subs@) =~= cur.remove(i as int));
                assert(cur.remove(i as int) =~= pre + olds.subrange(k + 1, n as int));
            } else {
                subs[i].deliver(state.clone(), cap);
                let ghost d = deliver(olds[k as int], state@, cap as nat);
                assert(subs@[i as int]@ == d);
                assert(subs_view(subs@) =~= cur.update(i as int, d));
                assert(cur.update(i as int, d) =~= pre.push(d) + olds.subrange(k + 1, n as int));
                assert(i < subs.len());
                i = i + 1;
            }
            k = k + 1;
        }
        proof {
            assert(olds.subrange(0, n as int) =~= olds);
            assert(subs_view(subs@) =~= deliver_all(olds, state@, cap as nat));
            lemma_deliver_all_wf(olds, state@, cap as nat);
            if olds.len() > 0 {
                assert(olds.last().id < h.next_id);
            }
        }
        self.subscribers = subs;
        self.latest = state;
    }

    /// Takes the oldest queued state of subscriber `id`, if it has one.
    pub fn recv(&mut self, id: u64) -> (r: Option<GameInfo>)
        ensures
            hub_wf(final(self)@),
            info_view(r) == received(old(self)@, id),
            final(self)@ == after_recv(old(self)@, id),
    {
        proof {
            use_type_invariant(&*self);
        }
        match self.find(id) {
            Some(k) => {
                if self.subscribers[k].queue.len() == 0 {
                    return None;
                }
                let mut subs: Vec<Subscriber> = Vec::new();
                std::mem::swap(&mut subs, &mut self.subscribers);
                let r = subs[k].pop();
                assert(subs_view(subs@) =~= after_recv(old(self)@, id).subscribers);
                self.subscribers = subs;
                r
            },
            None => None,
        }
    }

    /// Marks subscriber `id` as gone: it receives nothing more and is removed at the next
    /// publish.
    pub fn disconnect(&mut self, id: u64)
        ensures
            hub_wf(final(self)@),
            final(self)@ == after_disconnect(old(self)@, id),
    {
        proof {
            use_type_invariant(&*self);
        }
        if let Some(k) = self.find(id) {
            let mut subs: Vec<Subscriber> = Vec::new();
            std::mem::swap(&mut subs, &mut self.subscribers);
            subs[k].connected = false;
            assert(subs_view(subs@) =~= after_disconnect(old(self)@, id).subscribers);
            self.subscribers = subs;
        }
    }
}

} // verus!
