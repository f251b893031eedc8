//! The command bus: dual delivery of agent commands.
//!
//! Durable side: a per-agent mailbox holding at most one pending command per
//! agent; a new submission overwrites any unconsumed command for the same
//! agent (most-recent-wins — a mailbox, not a queue). Live side: every
//! submission is also fanned out to all subscribers through a bounded
//! multicast backlog of [`BROADCAST_CAPACITY`] messages; a subscriber that
//! falls further behind is told how many messages it missed instead of
//! silently losing them, so it can recover through the mailbox.

use vstd::prelude::*;
use vstd::string::StringExecFns;

verus! {

/// The number of recent messages kept for live subscribers.
pub const BROADCAST_CAPACITY: usize = 100;

/// The payload fanned out to live subscribers on every submission.
pub struct CommandMessage {
    pub message_type: String,
    pub agent_id: String,
    pub action: String,
}

/// The mathematical value of a `CommandMessage`.
#[verifier::ext_equal]
pub ghost struct CommandMessageV {
    pub message_type: Seq<char>,
    pub agent_id: Seq<char>,
    pub action: Seq<char>,
}

impl DeepView for CommandMessage {
    type V = CommandMessageV;

    open spec fn deep_view(&self) -> CommandMessageV {
        CommandMessageV {
            message_type: self.message_type@,
            agent_id: self.agent_id@,
            action: self.action@,
        }
    }
}

/// The mailbox value of an association list, later entries overwriting
/// earlier ones with the same key.
pub open spec fn pairs_map(s: Seq<(Seq<char>, Seq<char>)>) -> Map<Seq<char>, Seq<char>>
    decreases s.len(),
{
    if s.len() == 0 {
        Map::empty()
    } else {
        pairs_map(s.drop_last()).insert(s.last().0, s.last().1)
    }
}

/// No two entries share a key.
pub open spec fn unique_keys(s: Seq<(Seq<char>, Seq<char>)>) -> bool {
    forall|i: int, j: int| 0 <= i < j < s.len() ==> s[i].0 != s[j].0
}

proof fn lemma_pairs_map_dom(s: Seq<(Seq<char>, Seq<char>)>, k: Seq<char>)
    ensures
        pairs_map(s).dom().contains(k) <==> (exists|i: int| 0 <= i < s.len() && s[i].0 == k),
    decreases s.len(),
{
    if s.len() > 0 {
        lemma_pairs_map_dom(s.drop_last(), k);
        if pairs_map(s).dom().contains(k) {
            if k == s.last().0 {
                assert(s[s.len() - 1].0 == k);
            } else {
                let i = choose|i: int| 0 <= i < s.drop_last().len() && s.drop_last()[i].0 == k;
                assert(s[i].0 == k);
            }
        }
        if exists|i: int| 0 <= i < s.len() && s[i].0 == k {
            let i = choose|i: int| 0 <= i < s.len() && s[i].0 == k;
            if i < s.len() - 1 {
                assert(s.drop_last()[i].0 == k);
            }
        }
    }
}

proof fn lemma_pairs_map_remove(s: Seq<(Seq<char>, Seq<char>)>, i: int)
    requires
        unique_keys(s),
        0 <= i < s.len(),
    ensures
        pairs_map(s.remove(i)) == pairs_map(s).remove(s[i].0),
        pairs_map(s)[s[i].0] == s[i].1,
        unique_keys(s.remove(i)),
    decreases s.len(),
{
    let k = s[i].0;
    if i == s.len() - 1 {
        assert(s.remove(i) =~= s.drop_last());
        lemma_pairs_map_dom(s.drop_last(), k);
        assert(forall|j: int|
            0 <= j < s.drop_last().len() ==> s.drop_last()[j].0 == s[j].0 && s[j].0 != k);
        assert(!pairs_map(s.drop_last()).dom().contains(k));
        assert(pairs_map(s).remove(k) =~= pairs_map(s.drop_last()));
    } else {
        assert(s.remove(i).drop_last() =~= s.drop_last().remove(i));
        assert(s.remove(i).last() == s.last());
        lemma_pairs_map_remove(s.drop_last(), i);
        assert(s.last().0 != k);
        assert(pairs_map(s.remove(i)) =~= pairs_map(s).remove(k));
        assert(pairs_map(s)[k] == pairs_map(s.drop_last())[k]);
    }
}

/// A handle on the live stream: remembers how far into the published stream
/// its owner has read.
pub struct CommandSubscriber {
    cursor: u64,
}

impl CommandSubscriber {
    /// How many published messages this subscriber has consumed or skipped.
    pub closed spec fn cursor(&self) -> nat {
        self.cursor as nat
    }
}

/// What one receive attempt yields: the next message; notice that `n`
/// messages were missed because the subscriber fell behind the backlog; or
/// nothing new yet.
pub enum RecvOutcome {
    Message(CommandMessage),
    Missed(u64),
    Empty,
}

/// The dual-delivery command bus.
pub struct CommandBus {
    pending: Vec<(String, String)>,
    backlog: Vec<CommandMessage>,
    dropped: u64,
}

impl CommandBus {
    /// The mailbox: at most one pending command per agent.
    pub closed spec fn mailbox(&self) -> Map<Seq<char>, Seq<char>> {
        pairs_map(self.pending.deep_view())
    }

    /// The messages still available to lagging subscribers, oldest first.
    pub closed spec fn retained(&self) -> Seq<CommandMessageV> {
        self.backlog.deep_view()
    }

    /// How many published messages have aged out of the backlog.
    pub closed spec fn dropped_count(&self) -> nat {
        self.dropped as nat
    }

    /// How many messages have ever been published.
    pub open spec fn published(&self) -> nat {
        self.dropped_count() + self.retained().len()
    }

    /// The bus invariant: the mailbox list holds one entry per agent, and
    /// the backlog retains exactly the newest messages, at most
    /// [`BROADCAST_CAPACITY`] of them; older ones are dropped only once the
    /// backlog is full.
    pub closed spec fn wf(&self) -> bool {
        &&& unique_keys(self.pending.deep_view())
        &&& self.backlog@.len() <= BROADCAST_CAPACITY
        &&& (self.dropped == 0 || self.backlog@.len() == BROADCAST_CAPACITY)
        &&& self.dropped + self.backlog@.len() <= u64::MAX
    }

    /// An empty bus: nothing pending, nothing published.
    pub fn new() -> (r: CommandBus)
        ensures
            r.wf(),
            r.mailbox() == Map::<Seq<char>, Seq<char>>::empty(),
            r.published() == 0,
            r.dropped_count() == 0,
            r.retained() == Seq::<CommandMessageV>::empty(),
    {
        let r = CommandBus { pending: Vec::new(), backlog: Vec::new(), dropped: 0 };
        proof {
            assert(r.pending.deep_view() =~~= Seq::<(Seq<char>, Seq<char>)>::empty());
            assert(r.backlog.deep_view() =~~= Seq::<CommandMessageV>::empty());
        }
        r
    }

    /// The index of the agent's mailbox entry, if it has one.
    fn find_pending(&self, agent_id: &String) -> (r: Option<usize>)
        ensures
            match r {
                Some(i) => i < self.pending@.len() && self.pending.deep_view()[i as int].0
                    == agent_id@,
                None => forall|i: int|
                    0 <= i < self.pending@.len() ==> self.pending.deep_view()[i].0 != agent_id@,
            },
    {
        let mut i: usize = 0;
        while i < self.pending.len()
            invariant
                i <= self.pending@.len(),
                forall|k: int| 0 <= k < i ==> self.pending.deep_view()[k].0 != agent_id@,
            decreases self.pending@.len() - i,
        {
            if self.pending[i].0 == *agent_id {
                return Some(i);
            }
            i = i + 1;
        }
        None
    }

    /// Submits a command for an agent: overwrites the agent's mailbox entry
    /// (most-recent-wins) and publishes the same message to the live stream,
    /// dropping the oldest retained message for lagging subscribers once the
    /// backlog is full.
    pub fn submit(&mut self, agent_id: String, action: String)
        requires
            old(self).wf(),
            old(self).published() < u64::MAX,
        ensures
            final(self).wf(),
            final(self).mailbox() == old(self).mailbox().insert(agent_id@, action@),
            final(self).published() == old(self).published() + 1,
            final(self).dropped_count() == if old(self).retained().len() < BROADCAST_CAPACITY {
                old(self).dropped_count()
            } else {
                old(self).dropped_count() + 1
            },
            final(self).retained() == ({
                let m = CommandMessageV {
                    message_type: "command"@,
                    agent_id: agent_id@,
                    action: action@,
                };
                if old(self).retained().len() < BROADCAST_CAPACITY {
                    old(self).retained().push(m)
                } else {
                    old(self).retained().drop_first().push(m)
                }
            }),
    {
        let ghost k = agent_id@;
        let ghost v = action@;
        let msg = CommandMessage {
            message_type: String::from_str("command"),
            agent_id: agent_id.clone(),
            action: action.clone(),
        };
        proof {
            assert(msg.deep_view() =~~= CommandMessageV {
                message_type: "command"@,
                agent_id: k,
                action: v,
            });
        }
        // Durable side: overwrite or create the agent's mailbox entry.
        let ghost before = self.pending.deep_view();
        match self.find_pending(&agent_id) {
            Some(i) => {
                proof {
                    lemma_pairs_map_remove(before, i as int);
                }
                self.pending.remove(i);
                proof {
                    assert(self.pending.deep_view() =~~= before.remove(i as int));
                }
                self.pending.push((agent_id, action));
                proof {
                    let now = self.pending.deep_view();
                    assert(now.drop_last() =~~= before.remove(i as int));
                    assert(now.last() == (k, v));
                    assert(pairs_map(now) == pairs_map(before.remove(i as int)).insert(k, v));
                    assert(pairs_map(now) =~= pairs_map(before).insert(k, v));
                    assert forall|a: int, b: int| 0 <= a < b < now.len() implies now[a].0
                        != now[b].0 by {
                        if b < now.len() - 1 {
                            assert(now[a] == if a < i as int {
                                before[a]
                            } else {
                                before[a + 1]
                            });
                            assert(now[b] == if b < i as int {
                                before[b]
                            } else {
                                before[b + 1]
                            });
                        } else {
                            assert(now[b].0 == k);
                            let orig = if a < i as int {
                                a
                            } else {
                                a + 1
                            };
                            assert(now[a] == before[orig]);
                            assert(before[orig].0 != before[i as int].0);
                        }
                    }
                }
            },
            None => {
                self.pending.push((agent_id, action));
                proof {
                    let now = self.pending.deep_view();
                    assert(now.drop_last() =~~= before);
                    assert(now.last() == (k, v));
                    assert(pairs_map(now) == pairs_map(before).insert(k, v));
                    assert forall|a: int, b: int| 0 <= a < b < now.len() implies now[a].0
                        != now[b].0 by {
                        if b == now.len() - 1 {
                            assert(now[a] == before[a]);
                            assert(before[a].0 != k);
                        } else {
                            assert(now[a] == before[a] && now[b] == before[b]);
                        }
                    }
                }
            },
        }
        // Live side: publish to the bounded backlog.
        let ghost old_backlog = self.backlog.deep_view();
        if self.backlog.len() == BROADCAST_CAPACITY {
            self.backlog.remove(0);
            self.dropped = self.dropped + 1;
            proof {
                assert(self.backlog.deep_view() =~~= old_backlog.drop_first());
            }
        }
        let ghost mid_backlog = self.backlog.deep_view();
        self.backlog.push(msg);
        proof {
            assert(self.backlog.deep_view() =~~= mid_backlog.push(msg.deep_view()));
        }
    }

    /// Atomically reads and clears the agent's mailbox entry: the pending
    /// command, exactly when the agent has one. The live stream is
    /// untouched.
    pub fn take_pending(&mut self, agent_id: &String) -> (r: Option<String>)
        requires
            old(self).wf(),
        ensures
            final(self).wf(),
            r is Some <==> old(self).mailbox().dom().contains(agent_id@),
            (r matches Some(cmd) ==> cmd@ == old(self).mailbox()[agent_id@]
                && final(self).mailbox() == old(self).mailbox().remove(agent_id@)),
            r is None ==> final(self).mailbox() == old(self).mailbox(),
            final(self).retained() == old(self).retained(),
            final(self).dropped_count() == old(self).dropped_count(),
    {
        let ghost before = self.pending.deep_view();
        match self.find_pending(agent_id) {
            Some(i) => {
                proof {
                    lemma_pairs_map_remove(before, i as int);
                    lemma_pairs_map_dom(before, agent_id@);
                }
                let pair = self.pending.remove(i);
                proof {
                    assert(self.pending.deep_view() =~~= before.remove(i as int));
                }
                Some(pair.1)
            },
            None => {
                proof {
                    lemma_pairs_map_dom(before, agent_id@);
                }
                None
            },
        }
    }

    /// How many messages have ever been published, as a value a caller can
    /// test before submitting more.
    pub fn published_count(&self) -> (n: u64)
        requires
            self.wf(),
        ensures
            n == self.published(),
    {
        self.dropped + self.backlog.len() as u64
    }

    /// A new live subscription: it will see exactly the messages published
    /// after this call.
    pub fn subscribe(&self) -> (s: CommandSubscriber)
        requires
            self.wf(),
        ensures
            s.cursor() == self.published(),
    {
        CommandSubscriber { cursor: self.dropped + self.backlog.len() as u64 }
    }

    /// One receive attempt for a subscriber: the next unread message if it
    /// is still retained; how many messages were missed if the subscriber
    /// fell behind the backlog (its cursor then skips to the oldest retained
    /// message); or nothing when it has read everything published.
    pub fn recv(&self, sub: &mut CommandSubscriber) -> (r: RecvOutcome)
        requires
            self.wf(),
            old(sub).cursor() <= self.published(),
        ensures
            old(sub).cursor() < self.dropped_count() ==> (r matches RecvOutcome::Missed(n) && n
                == self.dropped_count() - old(sub).cursor() && final(sub).cursor()
                == self.dropped_count()),
            (self.dropped_count() <= old(sub).cursor() && old(sub).cursor() < self.published())
                ==> (r matches RecvOutcome::Message(m) && m.deep_view() == self.retained()[
                old(sub).cursor() - self.dropped_count()] && final(sub).cursor() == old(sub).cursor() + 1),
            old(sub).cursor() == self.published() ==> (r is Empty && final(sub).cursor() == old(sub).cursor()),
    {
        if sub.cursor < self.dropped {
            let n = self.dropped - sub.cursor;
            sub.cursor = self.dropped;
            RecvOutcome::Missed(n)
        } else if sub.cursor - self.dropped < self.backlog.len() as u64 {
            let idx = (sub.cursor - self.dropped) as usize;
            let m = &self.backlog[idx];
            let copy = CommandMessage {
                message_type: m.message_type.clone(),
                agent_id: m.agent_id.clone(),
                action: m.action.clone(),
            };
            proof {
                assert(copy.deep_view() =~~= self.backlog.deep_view()[idx as int]);
            }
            sub.cursor = sub.cursor + 1;
            RecvOutcome::Message(copy)
        } else {
            RecvOutcome::Empty
        }
    }
}

/// Most-recent-wins: for one agent a later submission supersedes an earlier
/// unconsumed one — after two submissions without consumption in between,
/// the mailbox holds exactly the second command, and taking it empties the
/// agent's slot.
pub proof fn lemma_mailbox_most_recent_wins(
    m: Map<Seq<char>, Seq<char>>,
    agent: Seq<char>,
    first: Seq<char>,
    second: Seq<char>,
)
    ensures
        m.insert(agent, first).insert(agent, second) == m.insert(agent, second),
        m.insert(agent, second)[agent] == second,
        !m.insert(agent, second).remove(agent).dom().contains(agent),
{
    assert(m.insert(agent, first).insert(agent, second) =~= m.insert(agent, second));
}

/// A subscriber that has fallen more than the backlog capacity behind the
/// published stream is behind the drop line, so its next receive reports
/// how much it missed instead of hanging or faulting.
pub proof fn lemma_lag_is_detected(bus: &CommandBus, cursor: nat)
    requires
        bus.wf(),
        cursor + BROADCAST_CAPACITY < bus.published(),
    ensures
        cursor < bus.dropped_count(),
{
}

} // verus!
