//! The event router: fan-out of typed notifications to zero or more
//! subscriber handles, by channel name.
//!
//! The routing table maps each live subscriber to its channel name and
//! its buffer of delivered-but-not-yet-consumed messages. On each
//! notification the router delivers an independent copy to every
//! subscriber registered on the notification's channel, in routing
//! order, appending to each buffer; subscribers on other channels see
//! nothing. Buffers are unbounded by design: a slow subscriber never
//! blocks delivery to others and never loses a delivered message, at
//! the cost of unbounded memory for a subscriber that stops consuming —
//! an explicit policy choice over bounded-drop or producer-side
//! backpressure. Within one channel each subscriber consumes messages
//! in exactly the order the router received them; nothing is promised
//! across channels. Unsubscribing is immediate and idempotent: the
//! routing entry and its undelivered buffer are discarded, and no later
//! notification reaches the released handle.

use vstd::prelude::*;

use crate::message::NotificationMessage;

verus! {

/// The mathematical view of one routing entry: the subscriber's
/// identity, its channel name, and its buffered messages in delivery
/// order.
pub ghost struct SubView {
    pub id: u64,
    pub channel: Seq<char>,
    pub queue: Seq<NotificationMessage>,
}

/// A live registration held by a subscriber from subscribe to
/// unsubscribe: its identity and the channel name it listens on. The
/// handle does not own notifications; it only receives copies through
/// the router.
#[derive(Clone, Debug)]
pub struct Subscriber {
    pub id: u64,
    pub channel_name: String,
}

struct RouterEntry {
    id: u64,
    channel: String,
    queue: Vec<NotificationMessage>,
}

/// Fan-out of one message: every entry on the message's channel gets
/// the message appended to its buffer; every other entry is unchanged.
pub open spec fn spec_publish(es: Seq<SubView>, m: NotificationMessage) -> Seq<SubView> {
    Seq::new(
        es.len(),
        |i: int|
            if es[i].channel == m.channel@ {
                SubView { id: es[i].id, channel: es[i].channel, queue: es[i].queue.push(m) }
            } else {
                es[i]
            },
    )
}

/// Fan-out of the messages `ms[i..]`, in order.
pub open spec fn spec_publish_from(
    es: Seq<SubView>,
    ms: Seq<NotificationMessage>,
    i: int,
) -> Seq<SubView>
    decreases ms.len() - i,
{
    if i < 0 || i >= ms.len() {
        es
    } else {
        spec_publish_from(spec_publish(es, ms[i]), ms, i + 1)
    }
}

/// The messages among `ms[i..]` published on channel `ch`, in order.
pub open spec fn matching_from(
    ms: Seq<NotificationMessage>,
    ch: Seq<char>,
    i: int,
) -> Seq<NotificationMessage>
    decreases ms.len() - i,
{
    if i < 0 || i >= ms.len() {
        Seq::empty()
    } else if ms[i].channel@ == ch {
        seq![ms[i]] + matching_from(ms, ch, i + 1)
    } else {
        matching_from(ms, ch, i + 1)
    }
}

/// Some entry carries identity `id`.
pub open spec fn has_subscriber(es: Seq<SubView>, id: u64) -> bool {
    exists|i: int| 0 <= i < es.len() && es[i].id == id
}

/// The position of the first entry carrying identity `id` from `i` on.
pub open spec fn find_sub_from(es: Seq<SubView>, id: u64, i: int) -> Option<int>
    decreases es.len() - i,
{
    if i < 0 || i >= es.len() {
        None
    } else if es[i].id == id {
        Some(i)
    } else {
        find_sub_from(es, id, i + 1)
    }
}

/// The routing table with the first entry carrying `id` from `i` on
/// removed; unchanged when no entry carries `id`.
pub open spec fn spec_drop_from(es: Seq<SubView>, id: u64, i: int) -> Seq<SubView>
    decreases es.len() - i,
{
    if i < 0 || i >= es.len() {
        es
    } else if es[i].id == id {
        es.remove(i)
    } else {
        spec_drop_from(es, id, i + 1)
    }
}

/// What publishing a sequence of messages delivers: the router keeps
/// every entry's identity and channel, and extends every entry's buffer
/// by exactly the published messages on that entry's channel, in
/// publication order.
pub proof fn lemma_publish_from_delivers(
    es: Seq<SubView>,
    ms: Seq<NotificationMessage>,
    k: int,
    i: int,
)
    requires
        0 <= k < es.len(),
        0 <= i <= ms.len(),
    ensures
        spec_publish_from(es, ms, i).len() == es.len(),
        spec_publish_from(es, ms, i)[k].id == es[k].id,
        spec_publish_from(es, ms, i)[k].channel == es[k].channel,
        spec_publish_from(es, ms, i)[k].queue == es[k].queue + matching_from(
            ms,
            es[k].channel,
            i,
        ),
    decreases ms.len() - i,
{
    if i >= ms.len() {
        assert(es[k].queue + matching_from(ms, es[k].channel, i) =~= es[k].queue);
    } else {
        let es1 = spec_publish(es, ms[i]);
        assert(es1.len() == es.len());
        lemma_publish_from_delivers(es1, ms, k, i + 1);
        if es[k].channel == ms[i].channel@ {
            assert(es1[k].queue == es[k].queue.push(ms[i]));
            assert(es[k].queue.push(ms[i]) + matching_from(ms, es[k].channel, i + 1) =~= es[
                k
            ].queue + (seq![ms[i]] + matching_from(ms, es[k].channel, i + 1)));
        } else {
            assert(es1[k] == es[k]);
        }
    }
}

/// Fan-out on one channel: two subscribers registered on the same
/// channel with the same consumption history receive every notification
/// published to that channel, both of them, in the same relative order
/// — their buffers stay equal over any published sequence.
pub proof fn lemma_fanout_same_channel(
    es: Seq<SubView>,
    ms: Seq<NotificationMessage>,
    i: int,
    j: int,
)
    requires
        0 <= i < es.len(),
        0 <= j < es.len(),
        es[i].channel == es[j].channel,
        es[i].queue == es[j].queue,
    ensures
        spec_publish_from(es, ms, 0)[i].queue == spec_publish_from(es, ms, 0)[j].queue,
        spec_publish_from(es, ms, 0)[i].queue == es[i].queue + matching_from(
            ms,
            es[i].channel,
            0,
        ),
{
    lemma_publish_from_delivers(es, ms, i, 0);
    lemma_publish_from_delivers(es, ms, j, 0);
}

/// A subscriber on a different channel receives none of them: when no
/// published message carries the subscriber's channel, its buffer is
/// unchanged.
pub proof fn lemma_fanout_other_channel(es: Seq<SubView>, ms: Seq<NotificationMessage>, k: int)
    requires
        0 <= k < es.len(),
        forall|x: int| 0 <= x < ms.len() ==> ms[x].channel@ != es[k].channel,
    ensures
        spec_publish_from(es, ms, 0)[k].queue == es[k].queue,
{
    lemma_publish_from_delivers(es, ms, k, 0);
    lemma_matching_none(ms, es[k].channel, 0);
    assert(es[k].queue + Seq::<NotificationMessage>::empty() =~= es[k].queue);
}

proof fn lemma_matching_none(ms: Seq<NotificationMessage>, ch: Seq<char>, i: int)
    requires
        forall|x: int| 0 <= x < ms.len() ==> ms[x].channel@ != ch,
    ensures
        matching_from(ms, ch, i) == Seq::<NotificationMessage>::empty(),
    decreases ms.len() - i,
{
    if 0 <= i < ms.len() {
        lemma_matching_none(ms, ch, i + 1);
    }
}

/// Unsubscribing stops delivery: a routing table without an entry for
/// an identity never grows one by publishing, so no message published
/// after an unsubscribe can reach the released handle.
pub proof fn lemma_unsubscribed_receives_nothing(
    es: Seq<SubView>,
    ms: Seq<NotificationMessage>,
    id: u64,
)
    requires
        !has_subscriber(es, id),
    ensures
        !has_subscriber(spec_publish_from(es, ms, 0), id),
        find_sub_from(spec_publish_from(es, ms, 0), id, 0) is None,
{
    let es2 = spec_publish_from(es, ms, 0);
    lemma_publish_from_len(es, ms, 0);
    assert forall|k: int| 0 <= k < es2.len() implies es2[k].id != id by {
        lemma_publish_from_delivers(es, ms, k, 0);
    }
    lemma_find_none(es2, id, 0);
}

proof fn lemma_publish_from_len(es: Seq<SubView>, ms: Seq<NotificationMessage>, i: int)
    ensures
        spec_publish_from(es, ms, i).len() == es.len(),
    decreases ms.len() - i,
{
    if 0 <= i < ms.len() {
        lemma_publish_from_len(spec_publish(es, ms[i]), ms, i + 1);
    }
}

proof fn lemma_find_none(es: Seq<SubView>, id: u64, i: int)
    requires
        forall|k: int| 0 <= k < es.len() ==> es[k].id != id,
    ensures
        find_sub_from(es, id, i) is None,
    decreases es.len() - i,
{
    if 0 <= i < es.len() {
        lemma_find_none(es, id, i + 1);
    }
}

proof fn lemma_find_skip(es: Seq<SubView>, id: u64, j: int, i: int)
    requires
        0 <= j <= i <= es.len(),
        forall|k: int| j <= k < i ==> es[k].id != id,
    ensures
        find_sub_from(es, id, j) == find_sub_from(es, id, i),
        spec_drop_from(es, id, j) == spec_drop_from(es, id, i),
    decreases i - j,
{
    if j < i {
        lemma_find_skip(es, id, j + 1, i);
    }
}

/// The event router: the routing table and the identity source for new
/// subscriptions.
pub struct EventRouter {
    entries: Vec<RouterEntry>,
    next_id: u64,
}

impl EventRouter {
    /// The routing table's view, in routing order.
    pub closed spec fn subs(&self) -> Seq<SubView> {
        Seq::new(
            self.entries@.len(),
            |i: int|
                SubView {
                    id: self.entries@[i].id,
                    channel: self.entries@[i].channel@,
                    queue: self.entries@[i].queue@,
                },
        )
    }

    /// The identity the next subscription will receive.
    pub closed spec fn issued(&self) -> u64 {
        self.next_id
    }

    /// Well-formedness: entry identities are unique and below the next
    /// identity to be issued.
    pub open spec fn wf(&self) -> bool {
        (forall|i: int, j: int|
            0 <= i < j < self.subs().len() ==> self.subs()[i].id != self.subs()[j].id) && (forall|
            i: int,
        |
            0 <= i < self.subs().len() ==> self.subs()[i].id < self.issued())
    }

    /// A router with no subscribers.
    pub fn new() -> (r: EventRouter)
        ensures
            r.wf(),
            r.subs() == Seq::<SubView>::empty(),
            r.issued() == 0,
    {
        let r = EventRouter { entries: Vec::new(), next_id: 0 };
        proof {
            assert(r.subs() =~= Seq::<SubView>::empty());
        }
        r
    }

    /// Registers a new subscriber on `channel_name` and returns its
    /// handle. The new entry starts with an empty buffer and joins the
    /// end of the routing table. The identity space is a machine limit:
    /// the router must not have exhausted its 64-bit identities.
    pub fn subscribe(&mut self, channel_name: String) -> (s: Subscriber)
        requires
            old(self).wf(),
            old(self).issued() < u64::MAX,
        ensures
            final(self).wf(),
            s.id == old(self).issued(),
            s.channel_name@ == channel_name@,
            final(self).subs() == old(self).subs().push(
                SubView {
                    id: old(self).issued(),
                    channel: channel_name@,
                    queue: Seq::<NotificationMessage>::empty(),
                },
            ),
            final(self).issued() == old(self).issued() + 1,
    {
        let id = self.next_id;
        let handle_name = channel_name.clone();
        let ghost old_subs = self.subs();
        self.entries.push(RouterEntry { id, channel: channel_name, queue: Vec::new() });
        self.next_id = id + 1;
        proof {
            assert(self.subs() =~= old_subs.push(
                SubView { id, channel: handle_name@, queue: Seq::<NotificationMessage>::empty() },
            ));
        }
        Subscriber { id, channel_name: handle_name }
    }

    /// Releases a subscription: the entry carrying the handle's
    /// identity leaves the routing table together with its undelivered
    /// buffer, and the rest keep their order. Reports whether an entry
    /// was removed; releasing an already-released handle changes
    /// nothing (idempotent).
    pub fn unsubscribe(&mut self, s: &Subscriber) -> (r: bool)
        requires
            old(self).wf(),
        ensures
            final(self).wf(),
            r == has_subscriber(old(self).subs(), s.id),
            final(self).subs() == spec_drop_from(old(self).subs(), s.id, 0),
            !has_subscriber(final(self).subs(), s.id),
            final(self).issued() == old(self).issued(),
    {
        let n = self.entries.len();
        let mut i: usize = 0;
        while i < n
            invariant
                old(self).wf(),
                n == self.subs().len(),
                i <= n,
                *self == *old(self),
                forall|k: int| 0 <= k < i ==> self.subs()[k].id != s.id,
            decreases n - i,
        {
            if self.entries[i].id == s.id {
                proof {
                    let es = self.subs();
                    assert(es[i as int].id == s.id);
                    lemma_find_skip(es, s.id, 0, i as int);
                    assert(spec_drop_from(es, s.id, 0) == es.remove(i as int));
                }
                let ghost es_old = self.subs();
                self.entries.remove(i);
                proof {
                    let es_new = self.subs();
                    assert(es_new =~= es_old.remove(i as int));
                    assert forall|k: int| 0 <= k < es_new.len() implies es_new[k].id != s.id by {
                        let k0 = if k < i as int {
                            k
                        } else {
                            k + 1
                        };
                        assert(es_new[k] == es_old[k0]);
                    }
                }
                return true;
            }
            i = i + 1;
        }
        proof {
            let es = self.subs();
            lemma_find_skip(es, s.id, 0, es.len() as int);
        }
        false
    }

    /// Fans one notification out: an independent copy is appended to
    /// the buffer of every subscriber on the notification's channel, in
    /// routing order; subscribers on other channels are untouched.
    pub fn publish(&mut self, m: &NotificationMessage)
        requires
            old(self).wf(),
        ensures
            final(self).wf(),
            final(self).subs() == spec_publish(old(self).subs(), *m),
            final(self).issued() == old(self).issued(),
    {
        let n = self.entries.len();
        let ghost es_old = self.subs();
        let mut i: usize = 0;
        while i < n
            invariant
                old(self).wf(),
                n == self.subs().len(),
                es_old == old(self).subs(),
                self.subs().len() == es_old.len(),
                i <= n,
                self.issued() == old(self).issued(),
                forall|k: int|
                    0 <= k < i ==> self.subs()[k] == spec_publish(es_old, *m)[k],
                forall|k: int| i <= k < n ==> self.subs()[k] == es_old[k],
            decreases n - i,
        {
            let mut e = self.entries.remove(i);
            let ghost es_mid = self.subs();
            if e.channel == m.channel {
                e.queue.push(m.duplicate());
            }
            let ghost q_new = e.queue@;
            self.entries.insert(i, e);
            proof {
                let es_now = self.subs();
                assert(es_now.len() == es_old.len());
                assert forall|k: int| 0 <= k < es_now.len() implies #[trigger] es_now[k] == (
                if k < i + 1 {
                    spec_publish(es_old, *m)[k]
                } else {
                    es_old[k]
                }) by {
                    if k < i as int {
                        assert(es_now[k] == es_mid[k]);
                    } else if k == i as int {
                        assert(es_now[k] == SubView {
                            id: es_old[k].id,
                            channel: es_old[k].channel,
                            queue: q_new,
                        });
                    } else {
                        assert(es_now[k] == es_mid[k - 1]);
                    }
                }
            }
            i = i + 1;
        }
        proof {
            assert(self.subs() =~= spec_publish(es_old, *m));
            let es_new = self.subs();
            assert forall|a: int, b: int|
                0 <= a < b < es_new.len() implies es_new[a].id != es_new[b].id by {
                assert(es_new[a].id == es_old[a].id);
                assert(es_new[b].id == es_old[b].id);
            }
            assert forall|a: int| 0 <= a < es_new.len() implies es_new[a].id < self.issued() by {
                assert(es_new[a].id == es_old[a].id);
            }
        }
    }

    /// Hands the subscriber the next undelivered message on its
    /// subscription, in delivery order, consuming it from the buffer.
    /// Yields nothing when the buffer is empty or when the subscription
    /// has been released — a released handle never sees another
    /// message.
    pub fn next_message(&mut self, s: &Subscriber) -> (r: Option<NotificationMessage>)
        requires
            old(self).wf(),
        ensures
            final(self).wf(),
            final(self).issued() == old(self).issued(),
            ({
                let es = old(self).subs();
                match find_sub_from(es, s.id, 0) {
                    None => r is None && final(self).subs() == es,
                    Some(i) => if es[i].queue.len() == 0 {
                        r is None && final(self).subs() == es
                    } else {
                        r == Some(es[i].queue[0]) && final(self).subs() == es.update(
                            i,
                            SubView {
                                id: es[i].id,
                                channel: es[i].channel,
                                queue: es[i].queue.drop_first(),
                            },
                        )
                    },
                }
            }),
    {
        let n = self.entries.len();
        let mut i: usize = 0;
        while i < n
            invariant
                old(self).wf(),
                n == self.subs().len(),
                i <= n,
                *self == *old(self),
                forall|k: int| 0 <= k < i ==> self.subs()[k].id != s.id,
            decreases n - i,
        {
            if self.entries[i].id == s.id {
                proof {
                    let es = self.subs();
                    lemma_find_resolves(es, s.id, 0, i as int);
                    assert(find_sub_from(es, s.id, 0) == Some(i as int));
                }
                if self.entries[i].queue.is_empty() {
                    return None;
                }
                let ghost es_old = self.subs();
                let mut e = self.entries.remove(i);
                let msg = e.queue.remove(0);
                let ghost q_new = e.queue@;
                self.entries.insert(i, e);
                proof {
                    let es_new = self.subs();
                    assert(q_new =~= es_old[i as int].queue.drop_first());
                    assert(es_new =~= es_old.update(
                        i as int,
                        SubView {
                            id: es_old[i as int].id,
                            channel: es_old[i as int].channel,
                            queue: es_old[i as int].queue.drop_first(),
                        },
                    ));
                    assert forall|a: int, b: int|
                        0 <= a < b < es_new.len() implies es_new[a].id != es_new[b].id by {
                        assert(es_new[a].id == es_old[a].id);
                        assert(es_new[b].id == es_old[b].id);
                    }
                }
                return Some(msg);
            }
            i = i + 1;
        }
        proof {
            let es = self.subs();
            lemma_find_resolves(es, s.id, 0, es.len() as int);
        }
        None
    }
}

proof fn lemma_find_resolves(es: Seq<SubView>, id: u64, j: int, i: int)
    requires
        0 <= j <= i <= es.len(),
        forall|k: int| j <= k < i ==> es[k].id != id,
    ensures
        find_sub_from(es, id, j) == (if i < es.len() && es[i].id == id {
            Some(i)
        } else {
            find_sub_from(es, id, i)
        }),
    decreases i - j,
{
    if j < i {
        lemma_find_resolves(es, id, j + 1, i);
    }
}

} // verus!
