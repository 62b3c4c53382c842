//! The message log: append-only, each entry attributed to a user.

use crate::identity::StoreError;
use crate::models::{Message, MessageView, NewMessage, NewMessageView};
use vstd::prelude::*;

verus! {

/// The views of a sequence of messages.
pub open spec fn message_views(messages: Seq<Message>) -> Seq<MessageView> {
    messages.map_values(|m: Message| m@)
}

/// What holds of the entries of every log: ids are positive, ascend with the
/// order of arrival and lie below the next id to assign.
pub open spec fn ordered(messages: Seq<MessageView>, next_id: i32) -> bool {
    &&& 1 <= next_id
    &&& forall|i: int| 0 <= i < messages.len() ==> 1 <= (#[trigger] messages[i]).id < next_id
    &&& forall|i: int, j: int|
        0 <= i < j < messages.len() ==> (#[trigger] messages[i]).id < (#[trigger] messages[j]).id
}

/// The messages, in the order of their arrival. Nothing is ever changed or
/// removed.
#[derive(Debug)]
pub struct MessageLog {
    messages: Vec<Message>,
    next_id: i32,
}

impl View for MessageLog {
    type V = Seq<MessageView>;

    closed spec fn view(&self) -> Seq<MessageView> {
        message_views(self.messages@)
    }
}

impl MessageLog {
    /// The id that the next message gets.
    pub closed spec fn next_id(&self) -> i32 {
        self.next_id
    }

    /// The log's invariant.
    pub open spec fn wf(&self) -> bool {
        ordered(self@, self.next_id())
    }

    /// Whether the log has run out of ids.
    pub open spec fn is_full(&self) -> bool {
        self.next_id() == i32::MAX
    }

    /// An empty log.
    pub fn new() -> (log: MessageLog)
        ensures
            log.wf(),
            log@ == Seq::<MessageView>::empty(),
            log.next_id() == 1,
    {
        MessageLog { messages: Vec::new(), next_id: 1 }
    }

    /// An empty log whose ids go on from `next_id`, for a log of which the
    /// earlier messages are kept elsewhere. `None` where `next_id` is not
    /// positive.
    pub fn resuming(next_id: i32) -> (r: Option<MessageLog>)
        ensures
            r is Some <==> next_id >= 1,
            r matches Some(log) ==> log.wf() && log@ == Seq::<MessageView>::empty()
                && log.next_id() == next_id,
    {
        if next_id >= 1 {
            Some(MessageLog { messages: Vec::new(), next_id })
        } else {
            None
        }
    }

    /// The number of messages.
    pub fn len(&self) -> (n: usize)
        ensures
            n == self@.len(),
    {
        self.messages.len()
    }

    /// The message at position `i`, counted from the oldest.
    pub fn get(&self, i: usize) -> (r: Option<&Message>)
        ensures
            match r {
                Some(message) => i < self@.len() && message@ == self@[i as int],
                None => i >= self@.len(),
            },
    {
        if i < self.messages.len() {
            Some(&self.messages[i])
        } else {
            None
        }
    }

    /// Whether no further message can be taken.
    pub fn full(&self) -> (b: bool)
        ensures
            b == self.is_full(),
    {
        self.next_id == i32::MAX
    }

    /// Records a message as it is given: no field is checked or changed. The
    /// log assigns the next id; `now` becomes the creation time. A log that
    /// has run out of ids is unavailable, and then nothing changes.
    pub fn insert(&mut self, entry: NewMessage, now: i64) -> (r: Result<Message, StoreError>)
        requires
            old(self).wf(),
        ensures
            final(self).wf(),
            match r {
                Ok(message) => {
                    &&& !old(self).is_full()
                    &&& message@ == entry@.stored(old(self).next_id(), now)
                    &&& final(self)@ == old(self)@.push(message@)
                    &&& final(self).next_id() == old(self).next_id() + 1
                },
                Err(e) => {
                    &&& old(self).is_full()
                    &&& e == StoreError::StorageUnavailable
                    &&& final(self)@ == old(self)@
                    &&& final(self).next_id() == old(self).next_id()
                },
            },
    {
        if self.next_id == i32::MAX {
            return Err(StoreError::StorageUnavailable);
        }
        let message = Message {
            id: self.next_id,
            user_id: entry.user_id,
            content: entry.content,
            image_url: entry.image_url,
            created_at: now,
        };
        let stored = message.clone();
        let ghost before = self@;
        self.messages.push(message);
        self.next_id = self.next_id + 1;
        assert(self@ =~= before.push(stored@));
        Ok(stored)
    }

    /// Records the text `text` as written by the user `author`. Any text is
    /// taken, the empty one too, and kept as it is.
    pub fn append(&mut self, author: i32, text: &str, now: i64) -> (r: Result<Message, StoreError>)
        requires
            old(self).wf(),
        ensures
            final(self).wf(),
            r is Ok <==> !old(self).is_full(),
            match r {
                Ok(message) => {
                    &&& message@ == NewMessageView::written(author, text@).stored(
                        old(self).next_id(),
                        now,
                    )
                    &&& final(self)@ == old(self)@.push(message@)
                    &&& final(self).next_id() == old(self).next_id() + 1
                },
                Err(e) => {
                    &&& e == StoreError::StorageUnavailable
                    &&& final(self)@ == old(self)@
                    &&& final(self).next_id() == old(self).next_id()
                },
            },
    {
        self.insert(NewMessage::written(author, text), now)
    }
}

} // verus!
