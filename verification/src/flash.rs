//! Flash messages: notices that a handler queues in the visitor's session and that the
//! next page shows once.
//!
//! The queue lives under one reserved key of the session. A push appends to it; a drain
//! hands out all of it and removes the key, so that a second drain finds nothing.

use crate::session::{
    decode_pairs, encode_pairs, read_pairs, remove_entry, session_entries, session_purged,
    write_pairs,
};
use actix_session::{Session, SessionGetError, SessionInsertError};
use vstd::prelude::*;

verus! {

/// The session key under which the queue is stored.
pub const FLASH_KEY: &'static str = "flsh";

/// A titled notice. In contracts a message is the pair of its title and its text.
#[derive(Debug, Clone, PartialEq, Eq)]
pub struct FlashMessage {
    pub title: String,
    pub message: String,
}

impl View for FlashMessage {
    type V = (Seq<char>, Seq<char>);

    open spec fn view(&self) -> (Seq<char>, Seq<char>) {
        (self.title@, self.message@)
    }
}

impl DeepView for FlashMessage {
    type V = (Seq<char>, Seq<char>);

    open spec fn deep_view(&self) -> (Seq<char>, Seq<char>) {
        self@
    }
}

impl FlashMessage {
    /// A message with the given title and text.
    pub fn new(title: &str, message: &str) -> (flash: FlashMessage)
        ensures
            flash@ == (title@, message@),
    {
        FlashMessage { title: title.to_owned(), message: message.to_owned() }
    }

    /// The message that a stored pair stands for.
    pub fn from_pair(pair: &(String, String)) -> (flash: FlashMessage)
        ensures
            flash@ == pair.deep_view(),
    {
        FlashMessage { title: pair.0.clone(), message: pair.1.clone() }
    }

    /// The pair that stands for this message in the session.
    pub fn into_pair(self) -> (pair: (String, String))
        ensures
            pair.deep_view() == self@,
    {
        (self.title, self.message)
    }
}

/// Why a push or a drain failed.
#[derive(Debug)]
pub enum SessionError {
    /// The stored queue could not be read back.
    Read(SessionGetError),
    /// The new queue could not be written.
    Write(SessionInsertError),
}

/// What the reserved key of a session holds.
pub enum FlashSlot {
    /// Nothing: no push since the last drain.
    Absent,
    /// A queue of messages, oldest first.
    Stored(Seq<(Seq<char>, Seq<char>)>),
    /// Something that does not read as a queue.
    Unreadable,
}

impl FlashSlot {
    /// The messages waiting in the slot, oldest first.
    pub open spec fn messages(self) -> Seq<(Seq<char>, Seq<char>)> {
        match self {
            FlashSlot::Stored(queue) => queue,
            _ => Seq::empty(),
        }
    }

    /// The slot after a push that went through.
    pub open spec fn after_push(self, flash: (Seq<char>, Seq<char>)) -> FlashSlot {
        match self {
            FlashSlot::Unreadable => FlashSlot::Unreadable,
            _ => FlashSlot::Stored(self.messages().push(flash)),
        }
    }

    /// The slot after one push for each message of `flashes`, in order.
    pub open spec fn after_pushes(self, flashes: Seq<(Seq<char>, Seq<char>)>) -> FlashSlot
        decreases flashes.len(),
    {
        if flashes.len() == 0 {
            self
        } else {
            self.after_pushes(flashes.drop_last()).after_push(flashes.last())
        }
    }

    /// The slot after a drain that went through.
    pub open spec fn after_drain(self) -> FlashSlot {
        match self {
            FlashSlot::Unreadable => FlashSlot::Unreadable,
            _ => FlashSlot::Absent,
        }
    }
}

/// What a map of session entries holds under the reserved key.
pub open spec fn slot_of(entries: Map<Seq<char>, Seq<char>>) -> FlashSlot {
    if !entries.contains_key(FLASH_KEY@) {
        FlashSlot::Absent
    } else {
        match decode_pairs(entries[FLASH_KEY@]) {
            Some(queue) => FlashSlot::Stored(queue),
            None => FlashSlot::Unreadable,
        }
    }
}

/// What the session holds under the reserved key.
pub open spec fn flash_slot(session: Session) -> FlashSlot {
    slot_of(session_entries(session))
}

/// The queue to store after a push: what was stored, if anything, then `flash`.
pub fn queue_with(stored: Option<Vec<(String, String)>>, flash: FlashMessage) -> (queue: Vec<
    (String, String),
>)
    ensures
        queue.deep_view() == match stored {
            Some(pairs) => pairs.deep_view().push(flash@),
            None => seq![flash@],
        },
{
    let mut queue = match stored {
        Some(pairs) => pairs,
        None => Vec::new(),
    };
    let ghost before = queue.deep_view();
    queue.push(flash.into_pair());
    assert(queue.deep_view() =~= before.push(flash@));
    queue
}

/// The messages that a drain hands out: those that were stored, in their order, or none.
pub fn messages_from(stored: Option<Vec<(String, String)>>) -> (messages: Vec<FlashMessage>)
    ensures
        messages.deep_view() == match stored {
            Some(pairs) => pairs.deep_view(),
            None => Seq::empty(),
        },
{
    let mut messages: Vec<FlashMessage> = Vec::new();
    match stored {
        Some(pairs) => {
            let mut i: usize = 0;
            while i < pairs.len()
                invariant
                    i <= pairs.len(),
                    messages.len() == i,
                    forall|k: int| 0 <= k < i ==> messages[k]@ == pairs[k].deep_view(),
                decreases pairs.len() - i,
            {
                messages.push(FlashMessage::from_pair(&pairs[i]));
                i += 1;
            }
            assert(messages.deep_view() =~= pairs.deep_view());
        },
        None => {
            assert(messages.deep_view() =~= Seq::empty());
        },
    }
    messages
}

/// `FlashMessages` implements a one-time-message (hence "Flash") that is useful for
/// old-school HTML flows that need to display messages in a standardized way across
/// pages.
pub trait FlashMessages {
    /// Adds a flash message to the stack.
    fn flash(&mut self, title: &str, message: &str) -> Result<(), SessionError>;

    /// Loads the flash messages and removes the existing stack.
    fn get_flash_messages(&mut self) -> Result<Vec<FlashMessage>, SessionError>;
}

impl FlashMessages for Session {
    /// Appends the message to the queue in the session.
    ///
    /// Fails with `Read`, and leaves the session alone, where the stored queue cannot be
    /// read. A purged session accepts the call and stores nothing. Otherwise the
    /// call succeeds exactly when the new queue can be encoded, and the slot then holds
    /// the old messages followed by the new one; where it cannot, the call fails with
    /// `Write` and leaves the session alone. No other key changes.
    fn flash(&mut self, title: &str, message: &str) -> (r: Result<(), SessionError>)
        ensures
            session_purged(*final(self)) == session_purged(*old(self)),
            session_entries(*final(self)).remove(FLASH_KEY@) == session_entries(
                *old(self),
            ).remove(FLASH_KEY@),
            flash_slot(*old(self)) is Unreadable ==> (r matches Err(SessionError::Read(_))
                && session_entries(*final(self)) == session_entries(*old(self))),
            flash_slot(*old(self)) !is Unreadable && session_purged(*old(self)) ==> r is Ok
                && session_entries(*final(self)) == session_entries(*old(self)),
            flash_slot(*old(self)) !is Unreadable && !session_purged(*old(self)) ==> (
            match encode_pairs(flash_slot(*old(self)).messages().push((title@, message@))) {
                Some(text) => r is Ok && session_entries(*final(self)) == session_entries(
                    *old(self),
                ).insert(FLASH_KEY@, text) && flash_slot(*final(self)) == flash_slot(
                    *old(self),
                ).after_push((title@, message@)),
                None => r matches Err(SessionError::Write(_)) && session_entries(*final(self))
                    == session_entries(*old(self)),
            }),
    {
        let stored = match read_pairs(self, FLASH_KEY) {
            Ok(stored) => stored,
            Err(cause) => {
                return Err(SessionError::Read(cause));
            },
        };
        let queue = queue_with(stored, FlashMessage::new(title, message));
        match write_pairs(self, FLASH_KEY, queue) {
            Ok(()) => {
                proof {
                    let before = session_entries(*old(self));
                    let after = session_entries(*self);
                    assert(after.remove(FLASH_KEY@) =~= before.remove(FLASH_KEY@));
                }
                Ok(())
            },
            Err(cause) => Err(SessionError::Write(cause)),
        }
    }

    /// Hands out the queued messages, oldest first, and removes the queue from the
    /// session.
    ///
    /// Fails with `Read`, and leaves the session alone, where the stored queue cannot be
    /// read. Otherwise it succeeds: with no queue in the session the result is empty; the
    /// reserved key is gone afterwards (a purged session keeps its entries as they are)
    /// and no other key changes.
    fn get_flash_messages(&mut self) -> (r: Result<Vec<FlashMessage>, SessionError>)
        ensures
            session_purged(*final(self)) == session_purged(*old(self)),
            flash_slot(*old(self)) is Unreadable ==> (r matches Err(SessionError::Read(_))
                && session_entries(*final(self)) == session_entries(*old(self))),
            flash_slot(*old(self)) !is Unreadable ==> (r matches Ok(messages)
                && messages.deep_view() == flash_slot(*old(self)).messages()),
            flash_slot(*old(self)) is Absent ==> (r matches Ok(messages) && messages@.len()
                == 0),
            flash_slot(*old(self)) !is Unreadable && !session_purged(*old(self))
                ==> session_entries(*final(self)) == session_entries(*old(self)).remove(
                FLASH_KEY@,
            ) && flash_slot(*final(self)) == flash_slot(*old(self)).after_drain(),
            flash_slot(*old(self)) !is Unreadable && session_purged(*old(self))
                ==> session_entries(*final(self)) == session_entries(*old(self)),
    {
        let stored = match read_pairs(self, FLASH_KEY) {
            Ok(stored) => stored,
            Err(cause) => {
                return Err(SessionError::Read(cause));
            },
        };
        let messages = messages_from(stored);
        assert(messages@.len() == messages.deep_view().len());
        let _ = remove_entry(self, FLASH_KEY);
        Ok(messages)
    }
}

/// A drain after any number of pushes hands out what was waiting before, then the pushed
/// messages in the order of the pushes, nothing lost, doubled or moved. On a slot that
/// held nothing before, that is exactly the pushed messages.
pub proof fn lemma_pushes_then_drain(before: FlashSlot, flashes: Seq<(Seq<char>, Seq<char>)>)
    requires
        before !is Unreadable,
    ensures
        before.after_pushes(flashes) !is Unreadable,
        before.after_pushes(flashes).messages() == before.messages() + flashes,
        before is Absent ==> before.after_pushes(flashes).messages() == flashes,
        flashes.len() > 0 ==> before.after_pushes(flashes) is Stored,
    decreases flashes.len(),
{
    if flashes.len() == 0 {
        assert(before.messages() + flashes =~= before.messages());
    } else {
        lemma_pushes_then_drain(before, flashes.drop_last());
        assert(before.messages() + flashes =~= (before.messages() + flashes.drop_last()).push(
            flashes.last(),
        ));
    }
    assert(before is Absent ==> before.messages() + flashes =~= flashes);
}

/// A push followed at once by a drain hands out what was waiting before and then the
/// pushed message; on a slot that held nothing, exactly that one message.
pub proof fn lemma_push_then_drain(before: FlashSlot, flash: (Seq<char>, Seq<char>))
    requires
        before !is Unreadable,
    ensures
        before.after_push(flash).messages() == before.messages().push(flash),
        before is Absent ==> before.after_push(flash).messages() == seq![flash],
        before.after_push(flash).after_drain() is Absent,
{
    assert(before is Absent ==> before.messages().push(flash) =~= seq![flash]);
}

/// One-shot: the first of two drains in a row hands out everything, the second nothing,
/// and a drain of an emptied slot leaves it empty.
pub proof fn lemma_second_drain_is_empty(before: FlashSlot)
    requires
        before !is Unreadable,
    ensures
        before.after_drain() is Absent,
        before.after_drain().messages() == Seq::<(Seq<char>, Seq<char>)>::empty(),
        before.after_drain().after_drain() == before.after_drain(),
{
}

} // verus!
