//! The presence state: a validated mirror of every field that is reported,
//! and the wire form that the native update call reads.

use vstd::prelude::*;
use crate::text::{bounded_text, content_of, terminated, within_limit, CText, KEY_LIMIT, TEXT_LIMIT};

verus! {

/// What a presence state holds: each text field by its content, `None`
/// where it is unset.
pub struct PresenceView {
    pub state: Option<Seq<u8>>,
    pub details: Option<Seq<u8>>,
    pub start_timestamp: i64,
    pub end_timestamp: i64,
    pub large_image_key: Option<Seq<u8>>,
    pub large_image_text: Option<Seq<u8>>,
    pub small_image_key: Option<Seq<u8>>,
    pub small_image_text: Option<Seq<u8>>,
    pub party_id: Option<Seq<u8>>,
    pub party_size: i32,
    pub party_max: i32,
    pub match_secret: Option<Seq<u8>>,
    pub join_secret: Option<Seq<u8>>,
    pub spectate_secret: Option<Seq<u8>>,
    pub instance: bool,
}

/// What the native update call is handed, field by field in the order of
/// the native layout: each text with its closing NUL, `None` for a null
/// pointer.
pub struct WireView {
    pub state: Option<Seq<u8>>,
    pub details: Option<Seq<u8>>,
    pub start_timestamp: i64,
    pub end_timestamp: i64,
    pub large_image_key: Option<Seq<u8>>,
    pub large_image_text: Option<Seq<u8>>,
    pub small_image_key: Option<Seq<u8>>,
    pub small_image_text: Option<Seq<u8>>,
    pub party_id: Option<Seq<u8>>,
    pub party_size: i32,
    pub party_max: i32,
    pub match_secret: Option<Seq<u8>>,
    pub join_secret: Option<Seq<u8>>,
    pub spectate_secret: Option<Seq<u8>>,
    pub instance: i8,
}

/// An optional field is unset, or holds content within its ceiling.
pub open spec fn field_ok(field: Option<Seq<u8>>, limit: nat) -> bool {
    field is Some ==> within_limit(field->Some_0, limit)
}

impl PresenceView {
    /// The state of a session that has set nothing yet.
    pub open spec fn empty() -> PresenceView {
        PresenceView {
            state: None,
            details: None,
            start_timestamp: 0,
            end_timestamp: 0,
            large_image_key: None,
            large_image_text: None,
            small_image_key: None,
            small_image_text: None,
            party_id: None,
            party_size: 0,
            party_max: 0,
            match_secret: None,
            join_secret: None,
            spectate_secret: None,
            instance: false,
        }
    }

    /// Every text field is unset, or non-empty, within its ceiling and free
    /// of NUL.
    pub open spec fn valid(self) -> bool {
        &&& field_ok(self.state, TEXT_LIMIT as nat)
        &&& field_ok(self.details, TEXT_LIMIT as nat)
        &&& field_ok(self.large_image_key, KEY_LIMIT as nat)
        &&& field_ok(self.large_image_text, TEXT_LIMIT as nat)
        &&& field_ok(self.small_image_key, KEY_LIMIT as nat)
        &&& field_ok(self.small_image_text, TEXT_LIMIT as nat)
        &&& field_ok(self.party_id, TEXT_LIMIT as nat)
        &&& field_ok(self.match_secret, TEXT_LIMIT as nat)
        &&& field_ok(self.join_secret, TEXT_LIMIT as nat)
        &&& field_ok(self.spectate_secret, TEXT_LIMIT as nat)
    }

    /// The wire form of this state.
    pub open spec fn wire(self) -> WireView {
        WireView {
            state: terminated(self.state),
            details: terminated(self.details),
            start_timestamp: self.start_timestamp,
            end_timestamp: self.end_timestamp,
            large_image_key: terminated(self.large_image_key),
            large_image_text: terminated(self.large_image_text),
            small_image_key: terminated(self.small_image_key),
            small_image_text: terminated(self.small_image_text),
            party_id: terminated(self.party_id),
            party_size: self.party_size,
            party_max: self.party_max,
            match_secret: terminated(self.match_secret),
            join_secret: terminated(self.join_secret),
            spectate_secret: terminated(self.spectate_secret),
            instance: if self.instance { 1i8 } else { 0i8 },
        }
    }
}

/// The bytes behind an optional borrowed slice.
pub open spec fn bytes_of(slice: Option<&[u8]>) -> Option<Seq<u8>> {
    match slice {
        Some(s) => Some(s@),
        None => None,
    }
}

/// The wire form of a presence state, borrowed from the state it was made
/// of: it cannot outlive that state, nor a change to it. Fields stand in
/// the order of the native layout; a `None` is handed on as a null pointer.
#[derive(Debug, Clone, Copy, PartialEq, Eq)]
pub struct WirePresence<'a> {
    pub state: Option<&'a [u8]>,
    pub details: Option<&'a [u8]>,
    pub start_timestamp: i64,
    pub end_timestamp: i64,
    pub large_image_key: Option<&'a [u8]>,
    pub large_image_text: Option<&'a [u8]>,
    pub small_image_key: Option<&'a [u8]>,
    pub small_image_text: Option<&'a [u8]>,
    pub party_id: Option<&'a [u8]>,
    pub party_size: i32,
    pub party_max: i32,
    pub match_secret: Option<&'a [u8]>,
    pub join_secret: Option<&'a [u8]>,
    pub spectate_secret: Option<&'a [u8]>,
    pub instance: i8,
}

impl<'a> View for WirePresence<'a> {
    type V = WireView;

    open spec fn view(&self) -> WireView {
        WireView {
            state: bytes_of(self.state),
            details: bytes_of(self.details),
            start_timestamp: self.start_timestamp,
            end_timestamp: self.end_timestamp,
            large_image_key: bytes_of(self.large_image_key),
            large_image_text: bytes_of(self.large_image_text),
            small_image_key: bytes_of(self.small_image_key),
            small_image_text: bytes_of(self.small_image_text),
            party_id: bytes_of(self.party_id),
            party_size: self.party_size,
            party_max: self.party_max,
            match_secret: bytes_of(self.match_secret),
            join_secret: bytes_of(self.join_secret),
            spectate_secret: bytes_of(self.spectate_secret),
            instance: self.instance,
        }
    }
}

/// The presence state of one session.
#[derive(Debug, Clone, PartialEq, Eq)]
pub struct RichPresenceConfig {
    state: Option<CText>,
    details: Option<CText>,
    start_timestamp: i64,
    end_timestamp: i64,
    large_image_key: Option<CText>,
    large_image_text: Option<CText>,
    small_image_key: Option<CText>,
    small_image_text: Option<CText>,
    party_id: Option<CText>,
    party_size: i32,
    party_max: i32,
    match_secret: Option<CText>,
    join_secret: Option<CText>,
    spectate_secret: Option<CText>,
    instance: bool,
}

/// A stored field is unset, or a well-formed text within its ceiling.
spec fn stored_ok(field: Option<CText>, limit: nat) -> bool {
    field is Some ==> field->Some_0.wf() && within_limit(field->Some_0@, limit)
}

/// The wire form of one stored field.
fn wire_text(field: &Option<CText>) -> (r: Option<&[u8]>)
    requires
        field is Some ==> field->Some_0.wf(),
    ensures
        bytes_of(r) == terminated(content_of(*field)),
{
    match field {
        Some(text) => Some(text.as_bytes_with_nul()),
        None => None,
    }
}

impl View for RichPresenceConfig {
    type V = PresenceView;

    closed spec fn view(&self) -> PresenceView {
        PresenceView {
            state: content_of(self.state),
            details: content_of(self.details),
            start_timestamp: self.start_timestamp,
            end_timestamp: self.end_timestamp,
            large_image_key: content_of(self.large_image_key),
            large_image_text: content_of(self.large_image_text),
            small_image_key: content_of(self.small_image_key),
            small_image_text: content_of(self.small_image_text),
            party_id: content_of(self.party_id),
            party_size: self.party_size,
            party_max: self.party_max,
            match_secret: content_of(self.match_secret),
            join_secret: content_of(self.join_secret),
            spectate_secret: content_of(self.spectate_secret),
            instance: self.instance,
        }
    }
}

impl Default for RichPresenceConfig {
    /// A state with every text unset and every number zero.
    fn default() -> (r: RichPresenceConfig)
        ensures
            r.wf(),
            r@ == PresenceView::empty(),
    {
        RichPresenceConfig {
            state: None,
            details: None,
            start_timestamp: 0,
            end_timestamp: 0,
            large_image_key: None,
            large_image_text: None,
            small_image_key: None,
            small_image_text: None,
            party_id: None,
            party_size: 0,
            party_max: 0,
            match_secret: None,
            join_secret: None,
            spectate_secret: None,
            instance: false,
        }
    }
}

impl RichPresenceConfig {
    /// Every stored text is well formed and within the ceiling of its field.
    pub closed spec fn wf(&self) -> bool {
        &&& stored_ok(self.state, TEXT_LIMIT as nat)
        &&& stored_ok(self.details, TEXT_LIMIT as nat)
        &&& stored_ok(self.large_image_key, KEY_LIMIT as nat)
        &&& stored_ok(self.large_image_text, TEXT_LIMIT as nat)
        &&& stored_ok(self.small_image_key, KEY_LIMIT as nat)
        &&& stored_ok(self.small_image_text, TEXT_LIMIT as nat)
        &&& stored_ok(self.party_id, TEXT_LIMIT as nat)
        &&& stored_ok(self.match_secret, TEXT_LIMIT as nat)
        &&& stored_ok(self.join_secret, TEXT_LIMIT as nat)
        &&& stored_ok(self.spectate_secret, TEXT_LIMIT as nat)
    }

    /// A well-formed state is never partially invalid: each text field is
    /// unset or non-empty, within its ceiling and free of NUL.
    pub proof fn wf_is_valid(&self)
        requires
            self.wf(),
        ensures
            self@.valid(),
    {
    }

    /// Sets the main status line, at most 128 bytes.
    pub fn set_status(&mut self, status: &str)
        requires
            old(self).wf(),
        ensures
            final(self).wf(),
            final(self)@ == (PresenceView {
                state: bounded_text(status@, TEXT_LIMIT as nat),
                ..old(self)@
            }),
    {
        self.state = CText::bounded(status, TEXT_LIMIT);
    }

    /// Sets the secondary, detailed status line, at most 128 bytes.
    pub fn set_details(&mut self, details: &str)
        requires
            old(self).wf(),
        ensures
            final(self).wf(),
            final(self)@ == (PresenceView {
                details: bounded_text(details@, TEXT_LIMIT as nat),
                ..old(self)@
            }),
    {
        self.details = CText::bounded(details, TEXT_LIMIT);
    }

    /// Sets the start and the end of the current gameplay session, as
    /// epoch values; 0 stands for "unset".
    pub fn set_duration(&mut self, start: i64, end: i64)
        requires
            old(self).wf(),
        ensures
            final(self).wf(),
            final(self)@ == (PresenceView {
                start_timestamp: start,
                end_timestamp: end,
                ..old(self)@
            }),
    {
        self.start_timestamp = start;
        self.end_timestamp = end;
    }

    /// Sets the small profile image, by a key of at most 32 bytes, and its
    /// hover tooltip, at most 128 bytes. Each of the two is judged alone.
    pub fn set_small_image(&mut self, image_key: &str, tooltip: &str)
        requires
            old(self).wf(),
        ensures
            final(self).wf(),
            final(self)@ == (PresenceView {
                small_image_key: bounded_text(image_key@, KEY_LIMIT as nat),
                small_image_text: bounded_text(tooltip@, TEXT_LIMIT as nat),
                ..old(self)@
            }),
    {
        self.small_image_key = CText::bounded(image_key, KEY_LIMIT);
        self.small_image_text = CText::bounded(tooltip, TEXT_LIMIT);
    }

    /// Sets the large profile image, by a key of at most 32 bytes, and its
    /// hover tooltip, at most 128 bytes. Each of the two is judged alone.
    pub fn set_large_image(&mut self, image_key: &str, tooltip: &str)
        requires
            old(self).wf(),
        ensures
            final(self).wf(),
            final(self)@ == (PresenceView {
                large_image_key: bounded_text(image_key@, KEY_LIMIT as nat),
                large_image_text: bounded_text(tooltip@, TEXT_LIMIT as nat),
                ..old(self)@
            }),
    {
        self.large_image_key = CText::bounded(image_key, KEY_LIMIT);
        self.large_image_text = CText::bounded(tooltip, TEXT_LIMIT);
    }

    /// Sets the party: its id, at most 128 bytes, its current size and its
    /// capacity.
    pub fn set_party(&mut self, party_id: &str, size: i32, max: i32)
        requires
            old(self).wf(),
        ensures
            final(self).wf(),
            final(self)@ == (PresenceView {
                party_id: bounded_text(party_id@, TEXT_LIMIT as nat),
                party_size: size,
                party_max: max,
                ..old(self)@
            }),
    {
        self.party_id = CText::bounded(party_id, TEXT_LIMIT);
        self.party_size = size;
        self.party_max = max;
    }

    /// Sets the three secrets, at most 128 bytes each: for the match, for
    /// joining and for spectating. Each of the three is judged alone.
    pub fn set_secrets(&mut self, match_secret: &str, join_secret: &str, spectate_secret: &str)
        requires
            old(self).wf(),
        ensures
            final(self).wf(),
            final(self)@ == (PresenceView {
                match_secret: bounded_text(match_secret@, TEXT_LIMIT as nat),
                join_secret: bounded_text(join_secret@, TEXT_LIMIT as nat),
                spectate_secret: bounded_text(spectate_secret@, TEXT_LIMIT as nat),
                ..old(self)@
            }),
    {
        self.match_secret = CText::bounded(match_secret, TEXT_LIMIT);
        self.join_secret = CText::bounded(join_secret, TEXT_LIMIT);
        self.spectate_secret = CText::bounded(spectate_secret, TEXT_LIMIT);
    }

    /// Says whether the match is an instanced one.
    pub fn set_instance(&mut self, instance: bool)
        requires
            old(self).wf(),
        ensures
            final(self).wf(),
            final(self)@ == (PresenceView { instance: instance, ..old(self)@ }),
    {
        self.instance = instance;
    }

    /// The wire form of the state as it stands, borrowed from it.
    pub fn as_c_config(&self) -> (wire: WirePresence<'_>)
        requires
            self.wf(),
        ensures
            wire@ == self@.wire(),
    {
        WirePresence {
            state: wire_text(&self.state),
            details: wire_text(&self.details),
            start_timestamp: self.start_timestamp,
            end_timestamp: self.end_timestamp,
            large_image_key: wire_text(&self.large_image_key),
            large_image_text: wire_text(&self.large_image_text),
            small_image_key: wire_text(&self.small_image_key),
            small_image_text: wire_text(&self.small_image_text),
            party_id: wire_text(&self.party_id),
            party_size: self.party_size,
            party_max: self.party_max,
            match_secret: wire_text(&self.match_secret),
            join_secret: wire_text(&self.join_secret),
            spectate_secret: wire_text(&self.spectate_secret),
            instance: if self.instance { 1i8 } else { 0i8 },
        }
    }
}

} // verus!
