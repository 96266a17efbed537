//! The handle held by request-handling workers: a cloneable capability
//! that turns each logical operation into one command on the actor's
//! mailbox, paired with a fresh one-shot reply slot, and blocks until the
//! reply arrives. The handle is pure transport: the value returned is
//! whatever the actor replied, and the store's contracts govern it.

use vstd::prelude::*;
use std::sync::mpsc::SyncSender;
use crate::channel::{channel_recv, channel_send, make_channel};
use crate::collection::CollectionMessages;
use crate::todo::{Todo, TodoEdit, TodoInput};

verus! {

/// Why a handle call could not complete: the actor's receive side is gone,
/// so either the command or the reply could not be carried. The caller is
/// told rather than left blocked forever.
#[derive(Debug, Clone, Copy, PartialEq, Eq, Structural)]
pub enum StoreError {
    MailboxClosed,
}

/// A shareable capability over the send side of the actor's mailbox; the
/// handle itself owns no collection state and needs no lock.
#[derive(Clone)]
pub struct TodoClient {
    pub tx: SyncSender<CollectionMessages>,
}

impl TodoClient {
    /// A handle over the given mailbox.
    pub fn new(tx: SyncSender<CollectionMessages>) -> TodoClient {
        TodoClient { tx }
    }

    /// Asks the actor for a snapshot of all items.
    pub fn get_list(&self) -> Result<Vec<Todo>, StoreError> {
        let (reply_tx, reply_rx) = make_channel(1);
        if !channel_send(&self.tx, CollectionMessages::GetList(reply_tx)) {
            return Err(StoreError::MailboxClosed);
        }
        match channel_recv(&reply_rx) {
            Some(list) => Ok(list),
            None => Err(StoreError::MailboxClosed),
        }
    }

    /// Asks the actor to create one item from the payload, rendering its
    /// location from the template.
    pub fn post_list(&self, todo_input: TodoInput, url_template: String) -> Result<
        Todo,
        StoreError,
    > {
        let (reply_tx, reply_rx) = make_channel(1);
        let message = CollectionMessages::PostList(todo_input, url_template, reply_tx);
        if !channel_send(&self.tx, message) {
            return Err(StoreError::MailboxClosed);
        }
        match channel_recv(&reply_rx) {
            Some(todo) => Ok(todo),
            None => Err(StoreError::MailboxClosed),
        }
    }

    /// Asks the actor to remove every item.
    pub fn delete_list(&self) -> Result<bool, StoreError> {
        let (reply_tx, reply_rx) = make_channel(1);
        if !channel_send(&self.tx, CollectionMessages::DeleteList(reply_tx)) {
            return Err(StoreError::MailboxClosed);
        }
        match channel_recv(&reply_rx) {
            Some(ok) => Ok(ok),
            None => Err(StoreError::MailboxClosed),
        }
    }

    /// Asks the actor for the item carrying `id`; `None` stands for "not
    /// found".
    pub fn get_item(&self, id: usize) -> Result<Option<Todo>, StoreError> {
        let (reply_tx, reply_rx) = make_channel(1);
        if !channel_send(&self.tx, CollectionMessages::GetItem(id, reply_tx)) {
            return Err(StoreError::MailboxClosed);
        }
        match channel_recv(&reply_rx) {
            Some(item) => Ok(item),
            None => Err(StoreError::MailboxClosed),
        }
    }

    /// Asks the actor to remove the item carrying `id`; `None` stands for
    /// "not found".
    pub fn delete_item(&self, id: usize) -> Result<Option<bool>, StoreError> {
        let (reply_tx, reply_rx) = make_channel(1);
        if !channel_send(&self.tx, CollectionMessages::DeleteItem(id, reply_tx)) {
            return Err(StoreError::MailboxClosed);
        }
        match channel_recv(&reply_rx) {
            Some(removed) => Ok(removed),
            None => Err(StoreError::MailboxClosed),
        }
    }

    /// Asks the actor to apply the partial payload to the item carrying
    /// `id`; `None` stands for "not found".
    pub fn patch_item(&self, id: usize, todo_edit: TodoEdit) -> Result<Option<Todo>, StoreError> {
        let (reply_tx, reply_rx) = make_channel(1);
        let message = CollectionMessages::PatchItem(id, todo_edit, reply_tx);
        if !channel_send(&self.tx, message) {
            return Err(StoreError::MailboxClosed);
        }
        match channel_recv(&reply_rx) {
            Some(item) => Ok(item),
            None => Err(StoreError::MailboxClosed),
        }
    }
}

} // verus!
