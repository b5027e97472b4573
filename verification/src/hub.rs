//! Subscriber lists: which local inboxes receive the envelopes published to
//! an address.
//!
//! Reference semantics (those of the in-memory transport): a subscription
//! matches an address exactly when their characters are equal, every
//! subscriber of an address receives each envelope published to it, and a
//! subscriber registered before a publish is among its recipients.

use crate::channel::{TrySendLog, TrySendRecord};
use crate::domain::{same_envelope, Address, Envelope, Subscription};
use crate::table::KeyedTable;
use tokio::sync::mpsc::Sender;
use vstd::prelude::*;

verus! {

/// The subscribers registered under `k`, or none.
pub open spec fn subscribers_at<S>(m: Map<Seq<char>, Seq<S>>, k: Seq<char>) -> Seq<S> {
    if m.contains_key(k) {
        m[k]
    } else {
        Seq::<S>::empty()
    }
}

/// The elements of `s` whose flag in `keep` is set, in order.
pub open spec fn kept<S>(s: Seq<S>, keep: Seq<bool>) -> Seq<S>
    decreases s.len(),
{
    if s.len() == 0 {
        Seq::<S>::empty()
    } else {
        let rest = kept(s.drop_last(), keep.drop_last());
        if keep[s.len() - 1] {
            rest.push(s.last())
        } else {
            rest
        }
    }
}

/// Each element of `s` paired with its flag in `keep`, position by position.
pub open spec fn flagged<S>(s: Seq<S>, keep: Seq<bool>) -> Seq<(S, bool)> {
    Seq::new(s.len(), |i: int| (s[i], keep[i]))
}

/// Whether a flagged pair is set.
pub open spec fn flag_set<S>() -> spec_fn((S, bool)) -> bool {
    |p: (S, bool)| p.1
}

/// The element of a flagged pair.
pub open spec fn flag_item<S>() -> spec_fn((S, bool)) -> S {
    |p: (S, bool)| p.0
}

/// Eviction keeps exactly the elements whose flag is set, in their order:
/// `kept(s, keep)` is the pairing of `s` with `keep`, filtered on the flag,
/// with the flags dropped. So an element whose flag is clear is never kept,
/// and there is one kept element per set flag.
pub proof fn lemma_kept_selects_flagged<S>(s: Seq<S>, keep: Seq<bool>)
    requires
        keep.len() == s.len(),
    ensures
        kept(s, keep) == flagged(s, keep).filter(flag_set::<S>()).map_values(flag_item::<S>()),
        kept(s, keep).len() == keep.filter(|b: bool| b).len(),
    decreases s.len(),
{
    reveal(Seq::filter);
    if s.len() == 0 {
        assert(flagged(s, keep) =~= Seq::<(S, bool)>::empty());
        assert(keep =~= Seq::<bool>::empty());
        assert(flagged(s, keep).filter(flag_set::<S>()).map_values(flag_item::<S>()) =~= Seq::<
            S,
        >::empty());
    } else {
        let s0 = s.drop_last();
        let k0 = keep.drop_last();
        lemma_kept_selects_flagged(s0, k0);
        let last = (s.last(), keep.last());
        assert(flagged(s, keep) =~= flagged(s0, k0).push(last));
        flagged(s0, k0).lemma_filter_push(last, flag_set::<S>());
        assert(keep =~= k0.push(keep.last()));
        k0.lemma_filter_push(keep.last(), |b: bool| b);
        let f0 = flagged(s0, k0).filter(flag_set::<S>());
        assert(f0.push(last).map_values(flag_item::<S>()) =~= f0.map_values(flag_item::<S>()).push(
            s.last(),
        ));
    }
}

/// Subscribers (of type `S`, typically channel senders) by subscription.
pub struct SubscriberTable<S> {
    subs: KeyedTable<Vec<S>>,
}

impl<S> View for SubscriberTable<S> {
    type V = Map<Seq<char>, Seq<S>>;

    closed spec fn view(&self) -> Map<Seq<char>, Seq<S>> {
        self.subs@.map_values(|v: Vec<S>| v@)
    }
}

impl<S> SubscriberTable<S> {
    /// Internal consistency.
    pub closed spec fn wf(&self) -> bool {
        self.subs.wf()
    }

    /// A table without subscribers.
    pub fn new() -> (r: Self)
        ensures
            r.wf(),
            r@ == Map::<Seq<char>, Seq<S>>::empty(),
    {
        let r = SubscriberTable { subs: KeyedTable::new() };
        assert(r@ =~= Map::<Seq<char>, Seq<S>>::empty());
        r
    }

    /// Adds `subscriber` to the subscribers of `sub`.
    pub fn subscribe(&mut self, sub: Subscription, subscriber: S)
        requires
            old(self).wf(),
        ensures
            final(self).wf(),
            final(self)@ == old(self)@.insert(sub@, subscribers_at(old(self)@, sub@).push(subscriber)),
    {
        let key = sub.0;
        let mut list = match self.subs.remove(&key) {
            Some(l) => l,
            None => Vec::new(),
        };
        let ghost before = list@;
        assert(before == subscribers_at(old(self)@, key@));
        list.push(subscriber);
        let _ = self.subs.insert(key, list);
        assert(self@ =~= old(self)@.insert(key@, before.push(subscriber)));
    }

    /// The subscribers that an envelope published to `address` reaches:
    /// those of the subscription equal to it.
    pub fn subscribers(&self, address: &Address) -> (r: Option<&Vec<S>>)
        requires
            self.wf(),
        ensures
            match r {
                Some(v) => self@.contains_key(address@) && v@ == self@[address@],
                None => !self@.contains_key(address@),
            },
    {
        self.subs.get(&address.0)
    }

    /// Keeps, among the subscribers of `topic`, those whose flag is set.
    pub fn retain_flagged(&mut self, topic: &String, keep: &Vec<bool>)
        requires
            old(self).wf(),
            old(self)@.contains_key(topic@) ==> keep@.len() == old(self)@[topic@].len(),
        ensures
            final(self).wf(),
            final(self)@ == if old(self)@.contains_key(topic@) {
                old(self)@.insert(topic@, kept(old(self)@[topic@], keep@))
            } else {
                old(self)@
            },
    {
        match self.subs.remove(topic) {
            None => {
                assert(self@ =~= old(self)@);
            },
            Some(list) => {
                let ghost orig = list@;
                let n = list.len();
                let mut rest = list;
                let mut out: Vec<S> = Vec::new();
                let mut i: usize = 0;
                while i < n
                    invariant
                        n == orig.len(),
                        keep@.len() == n,
                        0 <= i <= n,
                        rest@ == orig.subrange(i as int, n as int),
                        out@ == kept(orig.take(i as int), keep@.take(i as int)),
                    decreases n - i,
                {
                    let x = rest.remove(0);
                    proof {
                        let s1 = orig.take(i as int + 1);
                        let k1 = keep@.take(i as int + 1);
                        assert(s1.drop_last() =~= orig.take(i as int));
                        assert(k1.drop_last() =~= keep@.take(i as int));
                        assert(s1.last() == x);
                        assert(k1[s1.len() - 1] == keep@[i as int]);
                        assert(rest@ =~= orig.subrange(i as int + 1, n as int));
                    }
                    if keep[i] {
                        out.push(x);
                    }
                    i = i + 1;
                }
                assert(orig.take(n as int) =~= orig);
                assert(keep@.take(n as int) =~= keep@);
                let key = topic.clone();
                let _ = self.subs.insert(key, out);
                assert(self@ =~= old(self)@.insert(topic@, kept(orig, keep@)));
            },
        }
    }

    /// Removes every subscriber.
    pub fn clear(&mut self)
        ensures
            final(self).wf(),
            final(self)@ == Map::<Seq<char>, Seq<S>>::empty(),
    {
        self.subs.clear();
        assert(self@ =~= Map::<Seq<char>, Seq<S>>::empty());
    }
}

/// Whether each hand-off in `sends` was accepted, in order.
pub open spec fn accepted_flags(sends: Seq<TrySendRecord<Envelope>>) -> Seq<bool> {
    sends.map_values(|r: TrySendRecord<Envelope>| r.was_accepted())
}

/// Hands a copy of `env` to every subscriber of `topic` without waiting, and
/// evicts the subscribers that could not take it (queue full or receiver
/// gone). The calls made are logged in `log`: exactly one `try_send` per
/// subscriber of `topic`, in order, with that subscriber's sender and a copy
/// of `env`, and no other; the returned records are those calls. Which ones
/// succeed is decided by the channels at run time; the subscribers that
/// remain are exactly those whose hand-off succeeded, in their order. A topic
/// without subscribers is left alone and nothing is sent.
pub fn deliver_and_evict(
    table: &mut SubscriberTable<Sender<Envelope>>,
    topic: &String,
    env: &Envelope,
    log: &mut TrySendLog<Envelope>,
) -> (sends: Ghost<Seq<TrySendRecord<Envelope>>>)
    requires
        old(table).wf(),
    ensures
        final(table).wf(),
        final(log).records() == old(log).records() + sends@,
        old(table)@.contains_key(topic@) ==> {
            &&& sends@.len() == old(table)@[topic@].len()
            &&& forall|i: int|
                0 <= i < sends@.len() ==> (#[trigger] sends@[i]).sender() == old(
                    table,
                )@[topic@][i] && same_envelope(sends@[i].value(), *env)
            &&& final(table)@ == old(table)@.insert(
                topic@,
                kept(old(table)@[topic@], accepted_flags(sends@)),
            )
        },
        !old(table)@.contains_key(topic@) ==> final(table)@ == old(table)@ && sends@.len() == 0,
{
    let mut flags: Vec<bool> = Vec::new();
    let ghost log0 = log.records();
    let ghost mut records: Seq<TrySendRecord<Envelope>> = Seq::empty();
    let addr = Address(topic.clone());
    match table.subscribers(&addr) {
        None => {
            assert(log.records() =~= log0 + records);
        },
        Some(senders) => {
            let mut i: usize = 0;
            while i < senders.len()
                invariant
                    0 <= i <= senders@.len(),
                    records.len() == i,
                    flags@ == accepted_flags(records),
                    log.records() == log0 + records,
                    forall|j: int|
                        0 <= j < i ==> (#[trigger] records[j]).sender() == senders@[j]
                            && same_envelope(records[j].value(), *env),
                decreases senders@.len() - i,
            {
                let ok = log.try_send(&senders[i], env.duplicate());
                flags.push(ok);
                proof {
                    let prev = records;
                    records = records.push(log.records().last());
                    assert(log.records() =~= log.records().drop_last().push(log.records().last()));
                    assert(log0 + records =~= (log0 + prev).push(log.records().last()));
                    assert(log.records() =~= log0 + records);
                    assert(flags@ =~= accepted_flags(records));
                }
                i = i + 1;
            }
        },
    }
    table.retain_flagged(topic, &flags);
    Ghost(records)
}

/// Reference semantics: once `subscriber` is registered for `sub`, a publish
/// to an address equal to `sub` reaches it (after the subscribers already
/// there), and the subscribers of every other address are unchanged.
pub proof fn lemma_subscribe_then_publish<S>(
    before: Map<Seq<char>, Seq<S>>,
    sub: Seq<char>,
    subscriber: S,
    address: Seq<char>,
)
    ensures
        ({
            let after = before.insert(sub, subscribers_at(before, sub).push(subscriber));
            &&& address == sub ==> subscribers_at(after, address).contains(subscriber)
            &&& address == sub ==> subscribers_at(after, address).last() == subscriber
            &&& address == sub ==> subscribers_at(after, address).drop_last() == subscribers_at(
                before,
                address,
            )
            &&& address != sub ==> subscribers_at(after, address) == subscribers_at(before, address)
        }),
{
    let after = before.insert(sub, subscribers_at(before, sub).push(subscriber));
    if address == sub {
        let s = subscribers_at(after, address);
        assert(s[s.len() - 1] == subscriber);
        assert(s.drop_last() =~= subscribers_at(before, address));
    }
}

/// Eviction never adds subscribers: the kept ones are at most as many as before.
pub proof fn lemma_kept_len<S>(s: Seq<S>, keep: Seq<bool>)
    requires
        keep.len() == s.len(),
    ensures
        kept(s, keep).len() <= s.len(),
        (forall|i: int| 0 <= i < keep.len() ==> keep[i]) ==> kept(s, keep) == s,
    decreases s.len(),
{
    if s.len() > 0 {
        lemma_kept_len(s.drop_last(), keep.drop_last());
        if forall|i: int| 0 <= i < keep.len() ==> keep[i] {
            assert forall|i: int| 0 <= i < keep.drop_last().len() implies keep.drop_last()[i] by {
                assert(keep[i]);
            }
            assert(keep[s.len() - 1]);
            assert(kept(s, keep) =~= s.drop_last().push(s.last()));
            assert(s.drop_last().push(s.last()) =~= s);
        }
    }
}

} // verus!
