//! The session store, as this library sees it.
//!
//! `actix_session::Session` keeps, for each key, the JSON text of a value. Nothing in
//! this file is proved: it states what the library takes for granted of that type, in
//! terms of the entries that a session holds.
//!
//! A `Session` is a handle to shared state. What is said here of a call describes a
//! session that nothing else reads or writes while the call runs, which is why writes
//! take the handle by `&mut`.

use vstd::prelude::*;

verus! {

/// `actix_session::Session`, a handle to the state of one visitor's session.
#[verifier::external_type_specification]
#[verifier::external_body]
pub struct ExSession(actix_session::Session);

/// `actix_session::SessionGetError`, the error of a read that could not be decoded.
#[verifier::external_type_specification]
#[verifier::external_body]
pub struct ExSessionGetError(actix_session::SessionGetError);

/// `actix_session::SessionInsertError`, the error of a write that could not be encoded.
#[verifier::external_type_specification]
#[verifier::external_body]
pub struct ExSessionInsertError(actix_session::SessionInsertError);

/// The entries of a session, as `Session::entries` shows them: for each key, the JSON
/// text stored under it.
pub uninterp spec fn session_entries(session: actix_session::Session) -> Map<Seq<char>, Seq<char>>;

/// Whether `Session::status` is `Purged`. A purged session ignores writes and removals.
pub uninterp spec fn session_purged(session: actix_session::Session) -> bool;

/// What `serde_json::from_str`, which `Session::get` applies to the stored text, makes
/// of a text when asked for a list of string pairs; `None` where it reports an error.
pub uninterp spec fn decode_pairs(text: Seq<char>) -> Option<Seq<(Seq<char>, Seq<char>)>>;

/// What `serde_json::to_string`, which `Session::insert` applies to the value, makes of
/// a list of string pairs; `None` where it reports an error.
pub uninterp spec fn encode_pairs(pairs: Seq<(Seq<char>, Seq<char>)>) -> Option<Seq<char>>;

/// `Session::get`, reading the value under `key` as a list of string pairs.
///
/// Claims: a missing key reads as `Ok(None)`; a present key reads as the list that its
/// text decodes to, and as an error where the text does not decode.
#[verifier::external_body]
pub(crate) fn read_pairs(session: &actix_session::Session, key: &str) -> (r: Result<
    Option<Vec<(String, String)>>,
    actix_session::SessionGetError,
>)
    ensures
        !session_entries(*session).contains_key(key@) ==> r matches Ok(None),
        session_entries(*session).contains_key(key@) ==> match decode_pairs(
            session_entries(*session)[key@],
        ) {
            Some(pairs) => r matches Ok(Some(read)) && read.deep_view() == pairs,
            None => r is Err,
        },
{
    session.get::<Vec<(String, String)>>(key)
}

/// `Session::insert`, writing a list of string pairs under `key`.
///
/// Claims: a purged session accepts the call and keeps its entries. Otherwise the call
/// succeeds exactly when the list can be encoded; the text of the list is then stored
/// under `key`, it decodes back to the same list, and no other entry changes. A failed
/// call changes no entry. Being purged or not is unchanged by the call.
#[verifier::external_body]
pub(crate) fn write_pairs(
    session: &mut actix_session::Session,
    key: &str,
    pairs: Vec<(String, String)>,
) -> (r: Result<(), actix_session::SessionInsertError>)
    ensures
        session_purged(*final(session)) == session_purged(*old(session)),
        session_purged(*old(session)) ==> r is Ok && session_entries(*final(session))
            == session_entries(*old(session)),
        !session_purged(*old(session)) ==> match encode_pairs(pairs.deep_view()) {
            Some(text) => r is Ok && session_entries(*final(session)) == session_entries(
                *old(session),
            ).insert(key@, text) && decode_pairs(text) == Some(pairs.deep_view()),
            None => r is Err && session_entries(*final(session)) == session_entries(
                *old(session),
            ),
        },
{
    session.insert(key, pairs)
}

/// `Session::remove`, deleting the entry under `key`.
///
/// Claims: a purged session keeps its entries and returns `None`. Otherwise the entry
/// under `key` is gone, no other entry changes, and the removed text is returned, if
/// there was one. Being purged or not is unchanged by the call.
#[verifier::external_body]
pub(crate) fn remove_entry(session: &mut actix_session::Session, key: &str) -> (r: Option<String>)
    ensures
        session_purged(*final(session)) == session_purged(*old(session)),
        session_purged(*old(session)) ==> r is None && session_entries(*final(session))
            == session_entries(*old(session)),
        !session_purged(*old(session)) ==> session_entries(*final(session)) == session_entries(
            *old(session),
        ).remove(key@),
        !session_purged(*old(session)) && session_entries(*old(session)).contains_key(key@)
            ==> (r matches Some(text) && text@ == session_entries(*old(session))[key@]),
        !session_purged(*old(session)) && !session_entries(*old(session)).contains_key(key@)
            ==> r is None,
{
    session.remove(key)
}

} // verus!
