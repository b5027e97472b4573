//! Requests that await their response, keyed by correlation id.

use crate::channel::{OneshotLink, OneshotSendRecord};
use crate::correlation::CorrelationId;
use crate::table::KeyedTable;
use tokio::sync::oneshot::{Receiver, Sender};
use vstd::prelude::*;

verus! {

/// Pending requests: for each outstanding correlation id, the sender through
/// which its response payload reaches the waiting request, with the link to
/// the receiver that request waits on. The payloads handed over so far are
/// kept as records (ghost state).
pub struct PendingRequests {
    requests: KeyedTable<(Sender<Vec<u8>>, OneshotLink<Vec<u8>>)>,
    deliveries: Ghost<Seq<OneshotSendRecord<Vec<u8>>>>,
}

impl View for PendingRequests {
    type V = Map<Seq<char>, Sender<Vec<u8>>>;

    closed spec fn view(&self) -> Map<Seq<char>, Sender<Vec<u8>>> {
        self.requests@.map_values(|e: (Sender<Vec<u8>>, OneshotLink<Vec<u8>>)| e.0)
    }
}

impl PendingRequests {
    /// For each pending id, the link between its sender and the receiver
    /// the request waits on.
    pub closed spec fn links(&self) -> Map<Seq<char>, OneshotLink<Vec<u8>>> {
        self.requests@.map_values(|e: (Sender<Vec<u8>>, OneshotLink<Vec<u8>>)| e.1)
    }

    /// The sends made so far, oldest first.
    pub closed spec fn deliveries(&self) -> Seq<OneshotSendRecord<Vec<u8>>> {
        self.deliveries@
    }

    /// Well-formedness: the table is consistent and each stored link is the
    /// link of the stored sender.
    pub closed spec fn wf(&self) -> bool {
        &&& self.requests.wf()
        &&& forall|k: Seq<char>|
            #[trigger] self.requests@.contains_key(k) ==> self.requests@[k].1.sender()
                == self.requests@[k].0
    }

    /// In a well-formed tracker every pending id has a link, and it links
    /// the stored sender.
    pub proof fn lemma_links(&self)
        requires
            self.wf(),
        ensures
            self.links().dom() == self@.dom(),
            forall|k: Seq<char>| #[trigger]
                self@.contains_key(k) ==> self.links()[k].sender() == self@[k],
    {
        assert(self.links().dom() =~= self@.dom());
    }

    /// An empty tracker.
    pub fn new() -> (r: Self)
        ensures
            r.wf(),
            r@ == Map::<Seq<char>, Sender<Vec<u8>>>::empty(),
            r.links() == Map::<Seq<char>, OneshotLink<Vec<u8>>>::empty(),
            r.deliveries() == Seq::<OneshotSendRecord<Vec<u8>>>::empty(),
    {
        let r = PendingRequests { requests: KeyedTable::new(), deliveries: Ghost(Seq::empty()) };
        assert(r@ =~= Map::<Seq<char>, Sender<Vec<u8>>>::empty());
        assert(r.links() =~= Map::<Seq<char>, OneshotLink<Vec<u8>>>::empty());
        r
    }

    /// Registers a request under `correlation_id` and returns the receiver on
    /// which its response will arrive: the other half of the sender now
    /// stored for that id. A previous registration under the same id is
    /// replaced.
    pub fn register(&mut self, correlation_id: CorrelationId) -> (rx: Receiver<Vec<u8>>)
        requires
            old(self).wf(),
        ensures
            final(self).wf(),
            final(self)@.contains_key(correlation_id@),
            final(self)@ == old(self)@.insert(correlation_id@, final(self)@[correlation_id@]),
            final(self).links() == old(self).links().insert(
                correlation_id@,
                final(self).links()[correlation_id@],
            ),
            final(self).links()[correlation_id@].sender() == final(self)@[correlation_id@],
            final(self).links()[correlation_id@].receiver() == rx,
            final(self).deliveries() == old(self).deliveries(),
    {
        let (tx, rx, link) = crate::channel::open_oneshot();
        let key = correlation_id.to_string();
        let ghost k = key@;
        let _ = self.requests.insert(key, (tx, link));
        proof {
            assert(self@ =~= old(self)@.insert(k, tx));
            assert(self.links() =~= old(self).links().insert(k, link));
        }
        rx
    }

    /// Removes the request `correlation_id` and returns its sender, if it was pending.
    pub fn take(&mut self, correlation_id: &String) -> (r: Option<Sender<Vec<u8>>>)
        requires
            old(self).wf(),
        ensures
            final(self).wf(),
            final(self)@ == old(self)@.remove(correlation_id@),
            final(self).links() == old(self).links().remove(correlation_id@),
            final(self).deliveries() == old(self).deliveries(),
            match r {
                Some(tx) => old(self)@.contains_key(correlation_id@) && tx == old(self)@[correlation_id@],
                None => !old(self)@.contains_key(correlation_id@),
            },
    {
        let removed = self.requests.remove(correlation_id);
        proof {
            assert(self@ =~= old(self)@.remove(correlation_id@));
            assert(self.links() =~= old(self).links().remove(correlation_id@));
        }
        match removed {
            Some(entry) => Some(entry.0),
            None => None,
        }
    }

    /// Completes the request `correlation_id` with `response`: the request
    /// leaves the table and exactly its sender is handed `response` (a
    /// receiver that already gave up is ignored); that send is recorded.
    /// Returns whether it was pending; if not, nothing is sent.
    pub fn complete(&mut self, correlation_id: &CorrelationId, response: Vec<u8>) -> (r: bool)
        requires
            old(self).wf(),
        ensures
            final(self).wf(),
            r == old(self)@.contains_key(correlation_id@),
            final(self)@ == old(self)@.remove(correlation_id@),
            final(self).links() == old(self).links().remove(correlation_id@),
            r ==> {
                &&& final(self).deliveries().len() == old(self).deliveries().len() + 1
                &&& final(self).deliveries().drop_last() == old(self).deliveries()
                &&& final(self).deliveries().last().sender() == old(self)@[correlation_id@]
                &&& final(self).deliveries().last().value() == response
            },
            !r ==> final(self).deliveries() == old(self).deliveries(),
    {
        match self.take(correlation_id.as_string()) {
            Some(tx) => {
                let record = crate::channel::oneshot_send(tx, response);
                proof {
                    self.deliveries@ = self.deliveries@.push(record);
                    assert(self.deliveries@.drop_last() =~= old(self).deliveries());
                }
                true
            },
            None => false,
        }
    }

    /// Removes the request `correlation_id` without delivering anything.
    /// Returns whether it was pending.
    pub fn remove(&mut self, correlation_id: &CorrelationId) -> (r: bool)
        requires
            old(self).wf(),
        ensures
            final(self).wf(),
            r == old(self)@.contains_key(correlation_id@),
            final(self)@ == old(self)@.remove(correlation_id@),
            final(self).links() == old(self).links().remove(correlation_id@),
            final(self).deliveries() == old(self).deliveries(),
    {
        self.take(correlation_id.as_string()).is_some()
    }

    /// Number of pending requests.
    pub fn len(&self) -> (r: usize)
        requires
            self.wf(),
        ensures
            r == self@.len(),
            self@.dom().finite(),
    {
        let n = self.requests.len();
        assert(self@.dom() =~= self.requests@.dom());
        n
    }
}

/// A registered request is completed exactly once: completing it succeeds and
/// removes it, so a second response with the same id finds nothing, and the
/// other pending requests are untouched.
pub proof fn lemma_complete_once(
    before: Map<Seq<char>, Sender<Vec<u8>>>,
    id: Seq<char>,
    tx: Sender<Vec<u8>>,
)
    ensures
        before.insert(id, tx).contains_key(id),
        before.insert(id, tx)[id] == tx,
        !before.insert(id, tx).remove(id).contains_key(id),
        forall|other: Seq<char>| other != id ==>
            (#[trigger] before.insert(id, tx).remove(id).contains_key(other)) == before.contains_key(other),
{
}

/// The response reaches its waiter. Take a tracker `registered` in which the
/// request `id` waits on `rx` (as `register` leaves it), and `completed`, the
/// tracker after `complete(id, response)` returned `true`. Then the one send
/// that completion made went to the sender whose other half is `rx`, with
/// `response`, and `id` is no longer pending.
pub proof fn lemma_response_reaches_waiter(
    registered: PendingRequests,
    completed: PendingRequests,
    id: Seq<char>,
    rx: Receiver<Vec<u8>>,
    response: Vec<u8>,
)
    requires
        registered.wf(),
        registered@.contains_key(id),
        registered.links()[id].receiver() == rx,
        completed@ == registered@.remove(id),
        completed.deliveries().len() == registered.deliveries().len() + 1,
        completed.deliveries().last().sender() == registered@[id],
        completed.deliveries().last().value() == response,
    ensures
        completed.deliveries().last().sender() == registered.links()[id].sender(),
        registered.links()[id].receiver() == rx,
        completed.deliveries().last().value() == response,
        !completed@.contains_key(id),
{
    registered.lemma_links();
}

} // verus!
