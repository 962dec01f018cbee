//! The presence session: one connection to the native library.
//!
//! A session decides; it performs no native call itself. Each operation
//! that the native side takes part in returns what is to be handed to it,
//! or says that nothing is to be done, and the caller makes the call.
//!
//! Once a session is shut down it asks for no native call any more: a poll
//! is idle, an update and a reply come to nothing, a second shutdown changes
//! nothing. Its setters still keep the presence state, which is then never
//! sent.

use vstd::prelude::*;
use vstd::utf8::encode_utf8;
use crate::events::{Event, EventView, Reply};
use crate::presence::{bytes_of, PresenceView, RichPresenceConfig, WirePresence};
use crate::registry::{Registry, RegistryView};
use crate::text::{bounded_text, c_text, content_of, terminated, CText, KEY_LIMIT, TEXT_LIMIT};

verus! {

/// Where a session stands. Before `init` there is no session; `shutdown`
/// is the only way from `Active` to `ShutDown`, and nothing leads back.
#[derive(Debug, Clone, Copy, PartialEq, Eq, Structural)]
pub enum Phase {
    Active,
    ShutDown,
}

/// A session as contracts see it.
pub struct SessionView {
    pub app_id: Seq<u8>,
    pub steam_id: Option<Seq<u8>>,
    pub auto_register: bool,
    pub presence: PresenceView,
    pub token: u64,
    pub phase: Phase,
}

/// What one poll came to.
#[derive(Debug, Clone, PartialEq, Eq)]
pub enum Polled {
    /// The oldest waiting event, taken from the queue.
    Event(Event),
    /// Nothing waited: the caller runs the native callbacks once, and has
    /// no event to report from this poll.
    RunCallbacks,
    /// The session is shut down: nothing to report and nothing to run.
    Idle,
}

/// The content of a [`Polled`].
pub enum PolledView {
    Event(EventView),
    RunCallbacks,
    Idle,
}

impl View for Polled {
    type V = PolledView;

    open spec fn view(&self) -> PolledView {
        match *self {
            Polled::Event(event) => PolledView::Event(event@),
            Polled::RunCallbacks => PolledView::RunCallbacks,
            Polled::Idle => PolledView::Idle,
        }
    }
}

impl Polled {
    /// The event that the poll reports to the application, if any.
    pub fn event(self) -> (r: Option<Event>)
        ensures
            match self {
                Polled::Event(event) => r == Some(event),
                _ => r is None,
            },
    {
        match self {
            Polled::Event(event) => Some(event),
            _ => None,
        }
    }
}

impl SessionView {
    /// What a poll of this session comes to, given the registry.
    pub open spec fn poll_outcome(self, registry: RegistryView) -> PolledView {
        if self.phase != Phase::Active {
            PolledView::Idle
        } else if registry.pending(self.token).len() == 0 {
            PolledView::RunCallbacks
        } else {
            PolledView::Event(registry.pending(self.token)[0])
        }
    }

    /// The registry after a poll of this session.
    pub open spec fn poll_registry(self, registry: RegistryView) -> RegistryView {
        if self.phase == Phase::Active {
            registry.taken(self.token)
        } else {
            registry
        }
    }

    /// The registry after `n` polls of this session in a row, with nothing
    /// fired in between.
    pub open spec fn poll_registry_n(self, registry: RegistryView, n: nat) -> RegistryView
        decreases n,
    {
        if n == 0 {
            registry
        } else {
            self.poll_registry(self.poll_registry_n(registry, (n - 1) as nat))
        }
    }
}

/// What the native initialize call is handed, borrowed from the session.
#[derive(Debug, Clone, Copy, PartialEq, Eq)]
pub struct WireInit<'a> {
    /// The application id with its closing NUL.
    pub app_id: &'a [u8],
    /// 1 where the application is to be registered with the platform, else 0.
    pub auto_register: i32,
    /// The platform user id with its closing NUL, or `None` for a null
    /// pointer.
    pub steam_id: Option<&'a [u8]>,
}

/// What the native respond call is handed.
#[derive(Debug, Clone, PartialEq, Eq)]
pub struct WireReply {
    /// The user replied to, or `None` for a null pointer.
    pub user_id: Option<CText>,
    /// The native code of the reply.
    pub reply: i32,
}

/// A connection that reports rich presence.
#[derive(Debug)]
pub struct RichPresence {
    app_id: CText,
    steam_id: Option<CText>,
    auto_register: bool,
    config: RichPresenceConfig,
    token: u64,
    phase: Phase,
}

impl View for RichPresence {
    type V = SessionView;

    closed spec fn view(&self) -> SessionView {
        SessionView {
            app_id: self.app_id@,
            steam_id: content_of(self.steam_id),
            auto_register: self.auto_register,
            presence: self.config@,
            token: self.token,
            phase: self.phase,
        }
    }
}

impl RichPresence {
    /// The texts of the session are well formed and so is its presence
    /// state.
    pub closed spec fn wf(&self) -> bool {
        &&& self.app_id.wf()
        &&& self.steam_id is Some ==> self.steam_id->Some_0.wf()
        &&& self.config.wf()
    }

    /// A well-formed session holds a valid presence state.
    pub proof fn wf_is_valid(&self)
        requires
            self.wf(),
        ensures
            self@.presence.valid(),
            !self@.app_id.contains(0u8),
            self@.steam_id is Some ==> !self@.steam_id->Some_0.contains(0u8),
    {
        self.config.wf_is_valid();
        self.app_id.content_is_nul_free();
        if self.steam_id is Some {
            self.steam_id->Some_0.content_is_nul_free();
        }
    }

    /// Creates a connection: installs a fresh sink for it in `registry` and
    /// starts with an empty presence state. The caller then makes the
    /// native initialize call with [`RichPresence::initialize_args`].
    ///
    /// A platform user id that holds a NUL cannot be handed on and is left
    /// out: the session has none. A session that is still active loses the
    /// sink to the new one and keeps what waits for it.
    pub fn init(
        app_id: &str,
        auto_register: bool,
        steam_id: Option<&str>,
        registry: &mut Registry,
    ) -> (rp: RichPresence)
        requires
            app_id@.len() > 0,
            !app_id@.contains('\0'),
        ensures
            rp.wf(),
            rp@ == (SessionView {
                app_id: encode_utf8(app_id@),
                steam_id: match steam_id {
                    Some(id) => c_text(id@),
                    None => None,
                },
                auto_register: auto_register,
                presence: PresenceView::empty(),
                token: old(registry)@.issued,
                phase: Phase::Active,
            }),
            final(registry)@ == old(registry)@.installed(),
            final(registry)@.listening(rp@.token),
            final(registry)@.pending(rp@.token) == Seq::<EventView>::empty(),
            forall|t: u64|
                t != old(registry)@.issued ==> #[trigger] final(registry)@.pending(t) == old(
                    registry,
                )@.pending(t),
    {
        let app_id = CText::new(app_id).unwrap();
        let steam_id = match steam_id {
            Some(id) => CText::new(id),
            None => None,
        };
        let token = registry.install();
        RichPresence {
            app_id,
            steam_id,
            auto_register,
            config: RichPresenceConfig::default(),
            token,
            phase: Phase::Active,
        }
    }

    /// Where the session stands.
    pub fn phase(&self) -> (p: Phase)
        ensures
            p == self@.phase,
    {
        self.phase
    }

    /// The token under which the session reads its queue.
    pub fn token(&self) -> (t: u64)
        ensures
            t == self@.token,
    {
        self.token
    }

    /// What the native initialize call is handed for this session.
    pub fn initialize_args(&self) -> (args: WireInit<'_>)
        requires
            self.wf(),
        ensures
            args.app_id@ == self@.app_id.push(0u8),
            args.auto_register == (if self@.auto_register { 1i32 } else { 0i32 }),
            bytes_of(args.steam_id) == terminated(self@.steam_id),
    {
        WireInit {
            app_id: self.app_id.as_bytes_with_nul(),
            auto_register: if self.auto_register { 1i32 } else { 0i32 },
            steam_id: match &self.steam_id {
                Some(id) => Some(id.as_bytes_with_nul()),
                None => None,
            },
        }
    }

    /// Polls for one event, without waiting. Takes the oldest event that
    /// waits for this session; where none waits, asks the caller to run the
    /// native callbacks once, and what they enqueue is for the polls after
    /// this one. A session that is shut down gets `Idle`.
    pub fn try_recv_event(&self, registry: &mut Registry) -> (polled: Polled)
        ensures
            polled@ == self@.poll_outcome(old(registry)@),
            final(registry)@ == self@.poll_registry(old(registry)@),
    {
        match self.phase {
            Phase::ShutDown => Polled::Idle,
            Phase::Active => match registry.take(self.token) {
                Some(event) => Polled::Event(event),
                None => Polled::RunCallbacks,
            },
        }
    }

    /// The wire form of the presence state as it stands, for the native
    /// update call; `None`, and no call, once the session is shut down.
    /// Nothing is sent when a field changes: set what is to change, then
    /// call this once.
    pub fn send_update(&self) -> (wire: Option<WirePresence<'_>>)
        requires
            self.wf(),
        ensures
            wire is Some <==> self@.phase == Phase::Active,
            wire is Some ==> wire->Some_0@ == self@.presence.wire(),
    {
        match self.phase {
            Phase::Active => Some(self.config.as_c_config()),
            Phase::ShutDown => None,
        }
    }

    /// What the native respond call is handed to answer the join request
    /// of `user_id`; `None`, and no call, once the session is shut down.
    /// A `user_id` that holds a NUL is sent as a null identifier.
    pub fn send_reply(&self, user_id: &str, reply: Reply) -> (wire: Option<WireReply>)
        ensures
            wire is Some <==> self@.phase == Phase::Active,
            wire is Some ==> {
                &&& content_of(wire->Some_0.user_id) == c_text(user_id@)
                &&& wire->Some_0.user_id is Some ==> wire->Some_0.user_id->Some_0.wf()
                &&& wire->Some_0.reply == reply.spec_code()
            },
    {
        match self.phase {
            Phase::Active => Some(WireReply { user_id: CText::new(user_id), reply: reply.code() }),
            Phase::ShutDown => None,
        }
    }

    /// Sets the main status line, at most 128 bytes. Text that is empty,
    /// too long or holds a NUL leaves the field unset.
    pub fn set_status(&mut self, status: &str)
        requires
            old(self).wf(),
        ensures
            final(self).wf(),
            final(self)@ == (SessionView {
                presence: (PresenceView {
                    state: bounded_text(status@, TEXT_LIMIT as nat),
                    ..old(self)@.presence
                }),
                ..old(self)@
            }),
    {
        self.config.set_status(status);
    }

    /// Sets the secondary, detailed status line, at most 128 bytes. Text
    /// that is empty, too long or holds a NUL leaves the field unset.
    pub fn set_details(&mut self, details: &str)
        requires
            old(self).wf(),
        ensures
            final(self).wf(),
            final(self)@ == (SessionView {
                presence: (PresenceView {
                    details: bounded_text(details@, TEXT_LIMIT as nat),
                    ..old(self)@.presence
                }),
                ..old(self)@
            }),
    {
        self.config.set_details(details);
    }

    /// Sets the start and the end of the current gameplay session, as
    /// epoch values; 0 stands for "unset".
    pub fn set_duration(&mut self, start: i64, end: i64)
        requires
            old(self).wf(),
        ensures
            final(self).wf(),
            final(self)@ == (SessionView {
                presence: (PresenceView {
                    start_timestamp: start,
                    end_timestamp: end,
                    ..old(self)@.presence
                }),
                ..old(self)@
            }),
    {
        self.config.set_duration(start, end);
    }

    /// Sets the small profile image, by a key of at most 32 bytes, and its
    /// hover tooltip, at most 128 bytes. Each of the two is judged alone:
    /// one that is empty, too long or holds a NUL is left unset.
    pub fn set_small_image(&mut self, image_key: &str, tooltip: &str)
        requires
            old(self).wf(),
        ensures
            final(self).wf(),
            final(self)@ == (SessionView {
                presence: (PresenceView {
                    small_image_key: bounded_text(image_key@, KEY_LIMIT as nat),
                    small_image_text: bounded_text(tooltip@, TEXT_LIMIT as nat),
                    ..old(self)@.presence
                }),
                ..old(self)@
            }),
    {
        self.config.set_small_image(image_key, tooltip);
    }

    /// Sets the large profile image, by a key of at most 32 bytes, and its
    /// hover tooltip, at most 128 bytes. Each of the two is judged alone:
    /// one that is empty, too long or holds a NUL is left unset.
    pub fn set_large_image(&mut self, image_key: &str, tooltip: &str)
        requires
            old(self).wf(),
        ensures
            final(self).wf(),
            final(self)@ == (SessionView {
                presence: (PresenceView {
                    large_image_key: bounded_text(image_key@, KEY_LIMIT as nat),
                    large_image_text: bounded_text(tooltip@, TEXT_LIMIT as nat),
                    ..old(self)@.presence
                }),
                ..old(self)@
            }),
    {
        self.config.set_large_image(image_key, tooltip);
    }

    /// Sets the party: its id, at most 128 bytes, its current size and its
    /// capacity. An id that is empty, too long or holds a NUL is left
    /// unset; the two numbers are stored as given.
    pub fn set_party(&mut self, party_id: &str, size: i32, max: i32)
        requires
            old(self).wf(),
        ensures
            final(self).wf(),
            final(self)@ == (SessionView {
                presence: (PresenceView {
                    party_id: bounded_text(party_id@, TEXT_LIMIT as nat),
                    party_size: size,
                    party_max: max,
                    ..old(self)@.presence
                }),
                ..old(self)@
            }),
    {
        self.config.set_party(party_id, size, max);
    }

    /// Sets the three secrets, at most 128 bytes each: for the match, for
    /// joining and for spectating. Each of the three is judged alone: one
    /// that is empty, too long or holds a NUL is left unset.
    pub fn set_secrets(&mut self, match_secret: &str, join_secret: &str, spectate_secret: &str)
        requires
            old(self).wf(),
        ensures
            final(self).wf(),
            final(self)@ == (SessionView {
                presence: (PresenceView {
                    match_secret: bounded_text(match_secret@, TEXT_LIMIT as nat),
                    join_secret: bounded_text(join_secret@, TEXT_LIMIT as nat),
                    spectate_secret: bounded_text(spectate_secret@, TEXT_LIMIT as nat),
                    ..old(self)@.presence
                }),
                ..old(self)@
            }),
    {
        self.config.set_secrets(match_secret, join_secret, spectate_secret);
    }

    /// Says whether the match is an instanced one.
    pub fn set_instance(&mut self, instance: bool)
        requires
            old(self).wf(),
        ensures
            final(self).wf(),
            final(self)@ == (SessionView {
                presence: (PresenceView { instance: instance, ..old(self)@.presence }),
                ..old(self)@
            }),
    {
        self.config.set_instance(instance);
    }

    /// Ends the session: removes the sink from `registry`, gives up the
    /// queue of this session and returns `true`, upon which the caller
    /// makes the native shutdown call. On a session that is shut down
    /// already nothing changes and the result is `false`.
    pub fn shutdown(&mut self, registry: &mut Registry) -> (native: bool)
        requires
            old(self).wf(),
        ensures
            final(self).wf(),
            native == (old(self)@.phase == Phase::Active),
            final(self)@ == (SessionView { phase: Phase::ShutDown, ..old(self)@ }),
            final(registry)@ == (if native {
                old(registry)@.cleared().released(old(self)@.token)
            } else {
                old(registry)@
            }),
    {
        match self.phase {
            Phase::Active => {
                registry.clear();
                registry.release(self.token);
                self.phase = Phase::ShutDown;
                true
            },
            Phase::ShutDown => false,
        }
    }
}

/// Handing events to a registry appends them, in the order handed, to what
/// waits for the session whose sink is installed, leaves that sink
/// installed, and touches the queue of no other session.
pub proof fn dispatch_appends(registry: RegistryView, token: u64, fired: Seq<EventView>)
    requires
        registry.listening(token),
    ensures
        registry.dispatched_all(fired).listening(token),
        registry.dispatched_all(fired).pending(token) == registry.pending(token) + fired,
        registry.dispatched_all(fired).issued == registry.issued,
        forall|other: u64|
            other != token ==> #[trigger] registry.dispatched_all(fired).pending(other)
                == registry.pending(other),
    decreases fired.len(),
{
    if fired.len() == 0 {
        assert(registry.pending(token) + fired =~= registry.pending(token));
    } else {
        let earlier = registry.dispatched_all(fired.drop_last());
        dispatch_appends(registry, token, fired.drop_last());
        assert(registry.pending(token) + fired =~= (registry.pending(token)
            + fired.drop_last()).push(fired.last()));
        assert forall|other: u64| other != token implies #[trigger] registry.dispatched_all(
            fired,
        ).pending(other) == registry.pending(other) by {
            assert(earlier.pending(other) == registry.pending(other));
        }
    }
}

/// Polling `n` times in a row, with no more events waiting than that, takes
/// the `n` oldest, leaves the rest waiting in their order, and moves the
/// sink nowhere.
pub proof fn polls_take_oldest(session: SessionView, registry: RegistryView, n: nat)
    requires
        session.phase == Phase::Active,
        n <= registry.pending(session.token).len(),
    ensures
        session.poll_registry_n(registry, n).live == registry.live,
        session.poll_registry_n(registry, n).pending(session.token) == registry.pending(
            session.token,
        ).skip(n as int),
    decreases n,
{
    if n == 0 {
        assert(registry.pending(session.token).skip(0) =~= registry.pending(session.token));
    } else {
        polls_take_oldest(session, registry, (n - 1) as nat);
        assert(registry.pending(session.token).skip(n - 1).drop_first()
            =~= registry.pending(session.token).skip(n as int));
    }
}

/// Events fired while a session listens come out of its polls exactly as
/// they went in: in the order fired, behind what waited already, one event
/// per poll, none lost and none twice. The poll after the last of them finds
/// the queue empty and asks for the native callbacks to be run.
pub proof fn polls_return_fired_events_in_order(
    session: SessionView,
    registry: RegistryView,
    fired: Seq<EventView>,
)
    requires
        session.phase == Phase::Active,
        registry.listening(session.token),
    ensures
        ({
            let after = registry.dispatched_all(fired);
            let waiting = registry.pending(session.token) + fired;
            &&& after.pending(session.token) == waiting
            &&& forall|k: nat|
                k < waiting.len() ==> #[trigger] session.poll_outcome(
                    session.poll_registry_n(after, k),
                ) == PolledView::Event(waiting[k as int])
            &&& session.poll_outcome(session.poll_registry_n(after, waiting.len()))
                == PolledView::RunCallbacks
        }),
{
    let after = registry.dispatched_all(fired);
    let waiting = registry.pending(session.token) + fired;
    dispatch_appends(registry, session.token, fired);
    assert forall|k: nat| k < waiting.len() implies #[trigger] session.poll_outcome(
        session.poll_registry_n(after, k),
    ) == PolledView::Event(waiting[k as int]) by {
        polls_take_oldest(session, after, k);
    }
    polls_take_oldest(session, after, waiting.len());
}

/// One poll takes one event at most: either it reports the oldest waiting
/// event and leaves the others waiting in their order, or it reports none
/// and leaves the registry as it was. Whatever it does, the sink stays
/// where it is and the queues of the other sessions are not touched.
pub proof fn poll_takes_one_event_at_most(session: SessionView, registry: RegistryView)
    ensures
        match session.poll_outcome(registry) {
            PolledView::Event(event) => {
                &&& registry.pending(session.token).len() > 0
                &&& event == registry.pending(session.token)[0]
                &&& session.poll_registry(registry).pending(session.token) == registry.pending(
                    session.token,
                ).drop_first()
            },
            _ => session.poll_registry(registry) == registry,
        },
        session.poll_registry(registry).live == registry.live,
        forall|other: u64|
            other != session.token ==> #[trigger] session.poll_registry(registry).pending(other)
                == registry.pending(other),
{
}

/// An active session with nothing waiting is asked to run the native
/// callbacks, whether or not the installed sink is its own.
pub proof fn empty_poll_runs_callbacks(session: SessionView, registry: RegistryView)
    requires
        session.phase == Phase::Active,
        registry.pending(session.token).len() == 0,
    ensures
        session.poll_outcome(registry) == PolledView::RunCallbacks,
        session.poll_registry(registry) == registry,
{
}

/// After the shutdown of a session no sink is left behind and nothing
/// waits for that session: the next session finds the registry clean, and
/// the sink installed for it starts empty and is its own.
pub proof fn shutdown_leaves_registry_clean(registry: RegistryView, token: u64)
    ensures
        registry.cleared().released(token).live is None,
        registry.cleared().released(token).pending(token).len() == 0,
        registry.cleared().released(token).installed().listening(registry.issued),
        registry.cleared().released(token).installed().pending(registry.issued).len() == 0,
{
}

/// A later install takes the sink over and nothing else: what waited for
/// an earlier session still waits for it, in its order, and what is fired
/// from then on goes to the new session alone.
pub proof fn install_keeps_waiting_events(registry: RegistryView, earlier: u64, event: EventView)
    requires
        earlier != registry.issued,
    ensures
        registry.installed().listening(registry.issued),
        !registry.installed().listening(earlier),
        registry.installed().pending(earlier) == registry.pending(earlier),
        registry.installed().dispatched(event).pending(earlier) == registry.pending(earlier),
        registry.installed().dispatched(event).pending(registry.issued) == seq![event],
{
    assert(Seq::<EventView>::empty().push(event) =~= seq![event]);
}

/// The shutdown of one session removes the sink, whichever session it was
/// installed for, and leaves what waits for the others.
pub proof fn shutdown_keeps_other_queues(registry: RegistryView, token: u64, other: u64)
    requires
        other != token,
    ensures
        registry.cleared().released(token).pending(other) == registry.pending(other),
{
}

} // verus!
