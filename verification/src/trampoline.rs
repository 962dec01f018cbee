//! What each native callback does once its raw arguments are in hand: read
//! the text, build the event, and hand it to the registry in one call.
//!
//! The native side passes text as NUL-closed buffers that live only for the
//! length of the callback. The caller lends each buffer as a byte slice;
//! nothing here keeps a slice, every event owns its text. Text is read up
//! to its first NUL; valid UTF-8 reads as the text it encodes, anything
//! else is repaired.

use vstd::prelude::*;
use crate::events::{Event, EventView, JoinRequest, JoinRequestView};
use crate::registry::Registry;
use vstd::utf8::{decode_utf8, valid_utf8};
use crate::text::{before_nul, decode_text, lossy_text};

verus! {

/// The connection is ready.
pub fn evh_ready(registry: &mut Registry)
    ensures
        final(registry)@ == old(registry)@.dispatched(EventView::Ready),
{
    registry.dispatch(Event::Ready);
}

/// The connection was lost, with a code and a message from the native side.
pub fn evh_disconnected(registry: &mut Registry, error_code: i32, message: &[u8])
    ensures
        final(registry)@ == old(registry)@.dispatched(
            EventView::Disconnected(error_code, lossy_text(message@)),
        ),
        valid_utf8(before_nul(message@)) ==> lossy_text(message@) == decode_utf8(
            before_nul(message@),
        ),
{
    let message = decode_text(message);
    registry.dispatch(Event::Disconnected(error_code, message));
}

/// The native side reports an error, with a code and a message.
pub fn evh_errored(registry: &mut Registry, error_code: i32, message: &[u8])
    ensures
        final(registry)@ == old(registry)@.dispatched(
            EventView::Errored(error_code, lossy_text(message@)),
        ),
        valid_utf8(before_nul(message@)) ==> lossy_text(message@) == decode_utf8(
            before_nul(message@),
        ),
{
    let message = decode_text(message);
    registry.dispatch(Event::Errored(error_code, message));
}

/// The user is to join a game, by its secret.
pub fn evh_join(registry: &mut Registry, join_secret: &[u8])
    ensures
        final(registry)@ == old(registry)@.dispatched(
            EventView::JoinGame(lossy_text(join_secret@)),
        ),
        valid_utf8(before_nul(join_secret@)) ==> lossy_text(join_secret@) == decode_utf8(
            before_nul(join_secret@),
        ),
{
    let secret = decode_text(join_secret);
    registry.dispatch(Event::JoinGame(secret));
}

/// The user is to spectate a game, by its secret.
pub fn evh_spectate(registry: &mut Registry, spectate_secret: &[u8])
    ensures
        final(registry)@ == old(registry)@.dispatched(
            EventView::SpectateGame(lossy_text(spectate_secret@)),
        ),
        valid_utf8(before_nul(spectate_secret@)) ==> lossy_text(spectate_secret@) == decode_utf8(
            before_nul(spectate_secret@),
        ),
{
    let secret = decode_text(spectate_secret);
    registry.dispatch(Event::SpectateGame(secret));
}

/// Another user asks to join, named by the three texts of the native
/// request.
pub fn evh_joinreq(registry: &mut Registry, user_id: &[u8], username: &[u8], avatar: &[u8])
    ensures
        final(registry)@ == old(registry)@.dispatched(
            EventView::JoinRequest(
                JoinRequestView {
                    id: lossy_text(user_id@),
                    name: lossy_text(username@),
                    avatar: lossy_text(avatar@),
                },
            ),
        ),
        valid_utf8(before_nul(user_id@)) ==> lossy_text(user_id@) == decode_utf8(
            before_nul(user_id@),
        ),
        valid_utf8(before_nul(username@)) ==> lossy_text(username@) == decode_utf8(
            before_nul(username@),
        ),
        valid_utf8(before_nul(avatar@)) ==> lossy_text(avatar@) == decode_utf8(
            before_nul(avatar@),
        ),
{
    let id = decode_text(user_id);
    let name = decode_text(username);
    let avatar = decode_text(avatar);
    let jr = JoinRequest { id, name, avatar };
    registry.dispatch(Event::JoinRequest(jr));
}

} // verus!
