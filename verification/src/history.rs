//! Chat histories: where a coordinator keeps the conversation.
use vstd::prelude::*;

use crate::types::{ChatMessage, MessageView};

verus! {

/// A store of chat messages in the order in which they were added.
///
/// Users may keep the conversation in a store of their own; a vector of
/// messages is one.
pub trait ChatHistory {
    /// The messages held, oldest first.
    spec fn history_view(&self) -> Seq<MessageView>;

    /// Appends a message.
    fn push(&mut self, message: ChatMessage)
        ensures
            final(self).history_view() == old(self).history_view().push(message.deep_view()),
    ;

    /// A copy of the messages held, oldest first.
    fn messages(&self) -> (r: Vec<ChatMessage>)
        ensures
            r.deep_view() == self.history_view(),
    ;
}

impl ChatHistory for Vec<ChatMessage> {
    open spec fn history_view(&self) -> Seq<MessageView> {
        self.deep_view()
    }

    fn push(&mut self, message: ChatMessage) {
        let ghost before = self.deep_view();
        let ghost m = message.deep_view();
        Vec::push(self, message);
        assert(self.deep_view() =~= before.push(m));
    }

    fn messages(&self) -> (r: Vec<ChatMessage>) {
        let r = self.clone();
        assert(r.deep_view() =~= self.deep_view());
        r
    }
}

} // verus!
