//! The callback registry: the one slot, shared by the whole process, that
//! says where the events decoded by the native callbacks go.
//!
//! At most one sink is installed at any instant: the registry names the
//! session whose queue the callbacks fill. Every session has a queue of its
//! own, under the token it was given at install, from then until it is shut
//! down. A later install moves the sink to the new session and leaves the
//! queues of the others as they are, so what waited for a session still
//! comes out of its polls.

use std::collections::HashMap;
use std::collections::VecDeque;
use vstd::prelude::*;
use crate::events::{Event, EventView};

verus! {

broadcast use vstd::std_specs::hash::group_hash_axioms;

/// The registry as contracts see it.
pub struct RegistryView {
    /// The token of the session whose sink is installed, if any.
    pub live: Option<u64>,
    /// What waits for each session that has a queue, oldest first.
    pub queues: Map<u64, Seq<EventView>>,
    /// The token that the next install hands out.
    pub issued: u64,
}

impl RegistryView {
    /// A registry in which nothing was ever installed.
    pub open spec fn fresh() -> RegistryView {
        RegistryView { live: None, queues: Map::empty(), issued: 0 }
    }

    /// The token after `issued`; the count starts over after the last
    /// `u64`.
    pub open spec fn next_token(self) -> u64 {
        if self.issued == u64::MAX {
            0u64
        } else {
            (self.issued + 1) as u64
        }
    }

    /// Whether the installed sink is the one of the session with `token`.
    pub open spec fn listening(self, token: u64) -> bool {
        self.live == Some(token)
    }

    /// What waits for the session with `token`, oldest first; nothing for
    /// a session without a queue.
    pub open spec fn pending(self, token: u64) -> Seq<EventView> {
        if self.queues.contains_key(token) {
            self.queues[token]
        } else {
            Seq::empty()
        }
    }

    /// The registry after an install: the sink goes to a new session,
    /// which starts with an empty queue under a new token. The queues of
    /// the other sessions stay.
    pub open spec fn installed(self) -> RegistryView {
        RegistryView {
            live: Some(self.issued),
            queues: self.queues.insert(self.issued, Seq::empty()),
            issued: self.next_token(),
        }
    }

    /// The registry after its sink was removed. Every queue stays.
    pub open spec fn cleared(self) -> RegistryView {
        RegistryView { live: None, queues: self.queues, issued: self.issued }
    }

    /// The registry after the queue of the session with `token` was given
    /// up, and with it the sink where it was that session's.
    pub open spec fn released(self, token: u64) -> RegistryView {
        RegistryView {
            live: if self.live == Some(token) {
                None
            } else {
                self.live
            },
            queues: self.queues.remove(token),
            issued: self.issued,
        }
    }

    /// The registry after one event was handed to it: appended to the queue
    /// of the session whose sink is installed, dropped where none is.
    pub open spec fn dispatched(self, event: EventView) -> RegistryView {
        match self.live {
            Some(token) => RegistryView {
                live: self.live,
                queues: self.queues.insert(token, self.pending(token).push(event)),
                issued: self.issued,
            },
            None => self,
        }
    }

    /// The registry after each of `events` was handed to it, first to last.
    pub open spec fn dispatched_all(self, events: Seq<EventView>) -> RegistryView
        decreases events.len(),
    {
        if events.len() == 0 {
            self
        } else {
            self.dispatched_all(events.drop_last()).dispatched(events.last())
        }
    }

    /// The registry after the session with `token` took the oldest event
    /// that waits for it; unchanged where none waits.
    pub open spec fn taken(self, token: u64) -> RegistryView {
        if self.pending(token).len() > 0 {
            RegistryView {
                live: self.live,
                queues: self.queues.insert(token, self.pending(token).drop_first()),
                issued: self.issued,
            }
        } else {
            self
        }
    }
}

/// The views of a run of events.
pub open spec fn views_of(events: Seq<Event>) -> Seq<EventView> {
    events.map_values(|e: Event| e@)
}

/// The slot that names the live session, and the queue of every session.
pub struct Registry {
    live: Option<u64>,
    queues: HashMap<u64, VecDeque<Event>>,
    issued: u64,
}

impl View for Registry {
    type V = RegistryView;

    closed spec fn view(&self) -> RegistryView {
        RegistryView {
            live: self.live,
            queues: Map::new(
                |token: u64| self.queues@.contains_key(token),
                |token: u64| views_of(self.queues@[token]@),
            ),
            issued: self.issued,
        }
    }
}

impl Registry {
    /// An empty registry.
    pub fn new() -> (r: Registry)
        ensures
            r@ == RegistryView::fresh(),
    {
        let r = Registry { live: None, queues: HashMap::new(), issued: 0 };
        proof {
            assert(r@.queues =~= Map::<u64, Seq<EventView>>::empty());
        }
        r
    }

    /// Installs the sink for a new session: gives it an empty queue and
    /// returns the token under which the session reads it. The queues of
    /// earlier sessions are left as they are.
    pub fn install(&mut self) -> (token: u64)
        ensures
            token == old(self)@.issued,
            final(self)@ == old(self)@.installed(),
    {
        let token = self.issued;
        let queue: VecDeque<Event> = VecDeque::new();
        proof {
            assert(views_of(queue@) =~= Seq::<EventView>::empty());
        }
        self.queues.insert(token, queue);
        self.live = Some(token);
        self.issued = token.wrapping_add(1);
        proof {
            assert(self@.queues =~= old(self)@.installed().queues);
        }
        token
    }

    /// Removes the sink. Every queue stays with what waits in it.
    pub fn clear(&mut self)
        ensures
            final(self)@ == old(self)@.cleared(),
    {
        self.live = None;
        proof {
            assert(self@.queues =~= old(self)@.queues);
        }
    }

    /// Gives up the queue of the session with `token`, with whatever waits
    /// in it, and the sink too where it is that session's.
    pub fn release(&mut self, token: u64)
        ensures
            final(self)@ == old(self)@.released(token),
    {
        self.queues.remove(&token);
        match self.live {
            Some(live) => {
                if live == token {
                    self.live = None;
                }
            },
            None => {},
        }
        proof {
            assert(self@.queues =~= old(self)@.released(token).queues);
        }
    }

    /// Whether a sink is installed.
    pub fn is_installed(&self) -> (b: bool)
        ensures
            b == (self@.live is Some),
    {
        self.live.is_some()
    }

    /// Whether the installed sink is the one of the session with `token`.
    pub fn is_listening(&self, token: u64) -> (b: bool)
        ensures
            b == self@.listening(token),
    {
        match self.live {
            Some(live) => live == token,
            None => false,
        }
    }

    /// How many events wait for the session with `token`.
    pub fn pending_len(&self, token: u64) -> (n: usize)
        ensures
            n == self@.pending(token).len(),
    {
        match self.queues.get(&token) {
            Some(queue) => queue.len(),
            None => 0,
        }
    }

    /// Hands one decoded event to the installed sink, which appends it to
    /// the queue of its session. Without a sink the event is dropped and
    /// nothing changes.
    pub fn dispatch(&mut self, event: Event)
        ensures
            final(self)@ == old(self)@.dispatched(event@),
    {
        match self.live {
            Some(token) => {
                let mut queue = match self.queues.remove(&token) {
                    Some(queue) => queue,
                    None => VecDeque::new(),
                };
                let ghost before = queue@;
                queue.push_back(event);
                proof {
                    assert(views_of(before) =~= old(self)@.pending(token));
                    assert(views_of(queue@) =~= views_of(before).push(event@));
                }
                self.queues.insert(token, queue);
                proof {
                    assert(self@.queues =~= old(self)@.dispatched(event@).queues);
                }
            },
            None => {},
        }
    }

    /// Takes the oldest event that waits for the session with `token`,
    /// whether or not its sink is the installed one. `None` where nothing
    /// waits for it, and then nothing changes.
    pub fn take(&mut self, token: u64) -> (r: Option<Event>)
        ensures
            final(self)@ == old(self)@.taken(token),
            r is Some <==> old(self)@.pending(token).len() > 0,
            r is Some ==> r->Some_0@ == old(self)@.pending(token)[0],
    {
        match self.queues.remove(&token) {
            Some(queue) => {
                let mut queue = queue;
                let ghost before = queue@;
                let r = queue.pop_front();
                proof {
                    assert(views_of(before) =~= old(self)@.pending(token));
                    if r is Some {
                        assert(views_of(queue@) =~= views_of(before).drop_first());
                    }
                }
                self.queues.insert(token, queue);
                proof {
                    assert(self@.queues =~= old(self)@.taken(token).queues);
                }
                r
            },
            None => {
                proof {
                    assert(self@.queues =~= old(self)@.queues);
                }
                None
            },
        }
    }
}

} // verus!
