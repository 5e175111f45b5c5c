//! The change-notification relay: every notification that the store
//! publishes goes, unchanged, to the queue of every client connected at that
//! moment. A client that connects later sees only what is published after.

use vstd::arithmetic::power::lemma_pow0;
use vstd::arithmetic::power2::{lemma_pow2, lemma_pow2_unfold, pow2};
use vstd::prelude::*;

verus! {

/// One notification of the store's publish/subscribe channel.
#[derive(Debug, Clone, PartialEq, Eq)]
pub struct Notification {
    pub channel: String,
    pub payload: String,
}

impl Notification {
    /// A copy of the notification, field for field.
    pub fn duplicate(&self) -> (r: Notification)
        ensures
            r == *self,
    {
        Notification { channel: self.channel.clone(), payload: self.payload.clone() }
    }
}

/// The client queues after `n` is published to each of them.
pub open spec fn publish_model(
    clients: Seq<(u64, Seq<Notification>)>,
    n: Notification,
) -> Seq<(u64, Seq<Notification>)> {
    clients.map_values(|c: (u64, Seq<Notification>)| (c.0, c.1.push(n)))
}

/// The client queues after a client connects under `id`.
pub open spec fn subscribe_model(
    clients: Seq<(u64, Seq<Notification>)>,
    id: u64,
) -> Seq<(u64, Seq<Notification>)> {
    clients.push((id, Seq::empty()))
}

#[derive(Debug)]
struct ClientQueue {
    id: u64,
    pending: Vec<Notification>,
}

/// The connected clients, each with the notifications it has yet to take.
#[derive(Debug)]
pub struct Relay {
    clients: Vec<ClientQueue>,
    next_id: u64,
}

impl Relay {
    /// Each connected client with its pending notifications, in the order
    /// the clients connected.
    pub closed spec fn clients(&self) -> Seq<(u64, Seq<Notification>)> {
        self.clients@.map_values(|c: ClientQueue| (c.id, c.pending@))
    }

    /// How many ids have been handed out.
    pub closed spec fn issued(&self) -> nat {
        self.next_id as nat
    }

    /// Client ids are distinct and below the next one to be handed out.
    pub closed spec fn wf(&self) -> bool {
        &&& forall|i: int, j: int|
            0 <= i < j < self.clients@.len() ==> self.clients@[i].id != self.clients@[j].id
        &&& forall|i: int| 0 <= i < self.clients@.len() ==> self.clients@[i].id < self.next_id
    }

    pub fn new() -> (r: Relay)
        ensures
            r.wf(),
            r.clients() == Seq::<(u64, Seq<Notification>)>::empty(),
            r.issued() == 0,
    {
        let r = Relay { clients: Vec::new(), next_id: 0 };
        assert(r.clients() =~= Seq::<(u64, Seq<Notification>)>::empty());
        r
    }

    pub fn client_count(&self) -> (r: usize)
        ensures
            r == self.clients().len(),
    {
        self.clients.len()
    }

    /// Connects a client with an empty queue and returns its id, one that
    /// no connected client has; `None` once every id has been handed out.
    pub fn subscribe(&mut self) -> (r: Option<u64>)
        requires
            old(self).wf(),
        ensures
            final(self).wf(),
            r is None <==> old(self).issued() == u64::MAX,
            r is None ==> final(self).clients() == old(self).clients() && final(self).issued()
                == old(self).issued(),
            r is Some ==> r->0 == old(self).issued() && final(self).issued() == old(self).issued()
                + 1,
            r is Some ==> final(self).clients() == subscribe_model(old(self).clients(), r->0),
            r is Some ==> forall|i: int|
                0 <= i < old(self).clients().len() ==> old(self).clients()[i].0 != r->0,
    {
        if self.next_id == u64::MAX {
            return None;
        }
        let id = self.next_id;
        self.clients.push(ClientQueue { id, pending: Vec::new() });
        self.next_id = id + 1;
        assert(self.clients() =~= subscribe_model(old(self).clients(), id));
        Some(id)
    }

    /// Appends `n` to the queue of every connected client.
    pub fn publish(&mut self, n: &Notification)
        requires
            old(self).wf(),
        ensures
            final(self).wf(),
            final(self).issued() == old(self).issued(),
            final(self).clients() == publish_model(old(self).clients(), *n),
    {
        let mut i: usize = 0;
        while i < self.clients.len()
            invariant
                0 <= i <= self.clients@.len(),
                self.clients@.len() == old(self).clients@.len(),
                self.next_id == old(self).next_id,
                forall|k: int|
                    0 <= k < self.clients@.len() ==> self.clients@[k].id == old(
                        self,
                    ).clients@[k].id,
                forall|k: int|
                    0 <= k < i ==> self.clients@[k].pending@ == old(self).clients@[k].pending@.push(
                        *n,
                    ),
                forall|k: int|
                    i <= k < self.clients@.len() ==> self.clients@[k].pending@ == old(
                        self,
                    ).clients@[k].pending@,
            decreases self.clients@.len() - i,
        {
            self.clients[i].pending.push(n.duplicate());
            i = i + 1;
        }
        assert(self.clients() =~= publish_model(old(self).clients(), *n));
    }

    fn position(&self, id: u64) -> (r: Option<usize>)
        ensures
            match r {
                Some(k) => k < self.clients().len() && self.clients()[k as int].0 == id,
                None => forall|k: int| 0 <= k < self.clients().len() ==> self.clients()[k].0 != id,
            },
    {
        let mut i: usize = 0;
        while i < self.clients.len()
            invariant
                0 <= i <= self.clients@.len(),
                forall|k: int| 0 <= k < i ==> self.clients@[k].id != id,
            decreases self.clients@.len() - i,
        {
            if self.clients[i].id == id {
                return Some(i);
            }
            i = i + 1;
        }
        None
    }

    /// Hands over, oldest first, the notifications that the client `id` has
    /// not taken yet, and empties its queue. An id that is not connected
    /// gets nothing.
    pub fn take(&mut self, id: u64) -> (r: Vec<Notification>)
        requires
            old(self).wf(),
        ensures
            final(self).wf(),
            final(self).issued() == old(self).issued(),
            forall|k: int|
                0 <= k < old(self).clients().len() && #[trigger] old(self).clients()[k].0 == id ==> r@ == old(
                    self,
                ).clients()[k].1 && final(self).clients() == old(self).clients().update(
                    k,
                    (id, Seq::empty()),
                ),
            (forall|k: int| 0 <= k < old(self).clients().len() ==> old(self).clients()[k].0 != id)
                ==> r@ == Seq::<Notification>::empty() && final(self).clients() == old(
                self,
            ).clients(),
    {
        match self.position(id) {
            None => Vec::new(),
            Some(i) => {
                let mut taken: Vec<Notification> = Vec::new();
                std::mem::swap(&mut self.clients[i].pending, &mut taken);
                assert(self.clients() =~= old(self).clients().update(i as int, (id, Seq::empty())));
                taken
            },
        }
    }

    /// Disconnects the client `id` and drops its queue; `false` where no
    /// client has that id.
    pub fn unsubscribe(&mut self, id: u64) -> (r: bool)
        requires
            old(self).wf(),
        ensures
            final(self).wf(),
            final(self).issued() == old(self).issued(),
            forall|k: int|
                0 <= k < old(self).clients().len() && #[trigger] old(self).clients()[k].0 == id ==> r
                    && final(self).clients() == old(self).clients().remove(k),
            (forall|k: int| 0 <= k < old(self).clients().len() ==> old(self).clients()[k].0 != id)
                ==> !r && final(self).clients() == old(self).clients(),
    {
        match self.position(id) {
            None => false,
            Some(i) => {
                self.clients.remove(i);
                assert(self.clients() =~= old(self).clients().remove(i as int));
                assert forall|a: int, b: int|
                    0 <= a < b < self.clients@.len() implies self.clients@[a].id
                    != self.clients@[b].id by {
                    let oa = if a < i { a } else { a + 1 };
                    let ob = if b < i { b } else { b + 1 };
                    assert(self.clients@[a] == old(self).clients@[oa]);
                    assert(self.clients@[b] == old(self).clients@[ob]);
                }
                assert forall|a: int| 0 <= a < self.clients@.len() implies self.clients@[a].id
                    < self.next_id by {
                    let oa = if a < i { a } else { a + 1 };
                    assert(self.clients@[a] == old(self).clients@[oa]);
                }
                true
            },
        }
    }
}

/// Fan-out without replay: a notification published while two clients are
/// connected reaches both queues unchanged, as their newest entry, and a
/// client that connects after the publication starts with an empty queue.
pub proof fn lemma_publish_reaches_connected_clients_only(
    clients: Seq<(u64, Seq<Notification>)>,
    a: int,
    b: int,
    n: Notification,
    late: u64,
)
    requires
        0 <= a < clients.len(),
        0 <= b < clients.len(),
        a != b,
    ensures
        publish_model(clients, n)[a].1 == clients[a].1.push(n),
        publish_model(clients, n)[b].1 == clients[b].1.push(n),
        publish_model(clients, n)[a].1.last() == n,
        publish_model(clients, n)[b].1.last() == n,
        subscribe_model(publish_model(clients, n), late)[clients.len() as int] == (
            late,
            Seq::<Notification>::empty(),
        ),
        !subscribe_model(publish_model(clients, n), late)[clients.len() as int].1.contains(n),
{
}

/// The first wait before reconnecting, in milliseconds.
pub const RECONNECT_BASE_DELAY_MS: u64 = 250;

/// The longest wait between two reconnection attempts, in milliseconds.
pub const RECONNECT_MAX_DELAY_MS: u64 = 30000;

/// How many reconnections in a row are tried before the relay gives up.
pub const RECONNECT_MAX_ATTEMPTS: u32 = 8;

/// The wait before reconnection attempt `attempt` (counted from zero): the
/// base delay doubled once per earlier attempt, but never above `cap`.
pub open spec fn backoff_delay(base: nat, cap: nat, attempt: nat) -> nat {
    if base * pow2(attempt) < cap {
        base * pow2(attempt)
    } else {
        cap
    }
}

/// How the relay reconnects to the store after losing its listening
/// connection: exponential backoff, capped, for a bounded number of
/// attempts in a row.
#[derive(Debug, Clone, Copy, PartialEq, Eq, Structural)]
pub struct ReconnectPolicy {
    pub base_delay_ms: u64,
    pub max_delay_ms: u64,
    pub max_attempts: u32,
}

impl ReconnectPolicy {
    /// The policy the relay runs with.
    pub fn standard() -> (r: ReconnectPolicy)
        ensures
            r.base_delay_ms == RECONNECT_BASE_DELAY_MS,
            r.max_delay_ms == RECONNECT_MAX_DELAY_MS,
            r.max_attempts == RECONNECT_MAX_ATTEMPTS,
    {
        ReconnectPolicy {
            base_delay_ms: RECONNECT_BASE_DELAY_MS,
            max_delay_ms: RECONNECT_MAX_DELAY_MS,
            max_attempts: RECONNECT_MAX_ATTEMPTS,
        }
    }

    /// The wait before attempt `attempt`, or `None` once the attempts are
    /// used up.
    pub fn delay_for(&self, attempt: u32) -> (r: Option<u64>)
        ensures
            attempt >= self.max_attempts ==> r is None,
            attempt < self.max_attempts ==> r == Some(
                backoff_delay(
                    self.base_delay_ms as nat,
                    self.max_delay_ms as nat,
                    attempt as nat,
                ) as u64,
            ),
    {
        if attempt >= self.max_attempts {
            return None;
        }
        let base = self.base_delay_ms;
        let cap = self.max_delay_ms;
        let mut d: u64 = if base < cap {
            base
        } else {
            cap
        };
        let mut k: u32 = 0;
        proof {
            lemma_pow2(0);
            lemma_pow0(2);
            assert(base as nat * pow2(0) == base as nat);
        }
        while k < attempt
            invariant
                k <= attempt,
                d as nat == backoff_delay(base as nat, cap as nat, k as nat),
                d <= cap,
            decreases attempt - k,
        {
            proof {
                let p = pow2(k as nat);
                lemma_pow2_unfold((k + 1) as nat);
                assert(pow2((k + 1) as nat) == 2 * p);
                assert((base as nat) * (2 * p) == 2 * ((base as nat) * p)) by (nonlinear_arith);
            }
            if d >= cap - d {
                d = cap;
            } else {
                d = 2 * d;
            }
            k = k + 1;
        }
        Some(d)
    }
}

/// Why the relay stopped.
#[derive(Debug, Clone, Copy, PartialEq, Eq, Structural)]
pub enum RelayError {
    /// The listening connection to the store was lost and could not be
    /// made again within the given number of attempts.
    UpstreamLost(u32),
}

/// What to do after the listening connection was lost.
#[derive(Debug, Clone, Copy, PartialEq, Eq, Structural)]
pub enum UpstreamStep {
    /// Wait this many milliseconds, then connect again.
    Reconnect(u64),
    /// Stop the relay with this error.
    GiveUp(RelayError),
}

/// The state of the relay's listening connection: how many attempts in a
/// row have failed since it last stood.
#[derive(Debug)]
pub struct Upstream {
    failures: u32,
}

impl Upstream {
    pub closed spec fn spec_failures(&self) -> nat {
        self.failures as nat
    }

    pub fn new() -> (r: Upstream)
        ensures
            r.spec_failures() == 0,
    {
        Upstream { failures: 0 }
    }

    /// The connection stands again: the count of failures starts over.
    pub fn connected(&mut self)
        ensures
            final(self).spec_failures() == 0,
    {
        self.failures = 0;
    }

    /// The connection was lost, or an attempt to make it failed.
    pub fn connection_lost(&mut self, policy: &ReconnectPolicy) -> (r: UpstreamStep)
        ensures
            old(self).spec_failures() < policy.max_attempts ==> r == UpstreamStep::Reconnect(
                backoff_delay(
                    policy.base_delay_ms as nat,
                    policy.max_delay_ms as nat,
                    old(self).spec_failures(),
                ) as u64,
            ) && final(self).spec_failures() == old(self).spec_failures() + 1,
            old(self).spec_failures() >= policy.max_attempts ==> r == UpstreamStep::GiveUp(
                RelayError::UpstreamLost(old(self).spec_failures() as u32),
            ) && final(self).spec_failures() == old(self).spec_failures(),
    {
        match policy.delay_for(self.failures) {
            Some(d) => {
                self.failures = self.failures + 1;
                UpstreamStep::Reconnect(d)
            },
            None => UpstreamStep::GiveUp(RelayError::UpstreamLost(self.failures)),
        }
    }
}

} // verus!
