use std::sync::mpsc::sync_channel;

use todo_store::client::{StoreError, TodoClient};
use todo_store::collection::{CollectionMessages, TodoCollection};
use todo_store::todo::{TodoEdit, TodoInput};

fn input(title: &str) -> TodoInput {
    TodoInput { title: String::from(title), order: None }
}

#[test]
fn get_list_command_replies_with_a_snapshot() {
    let mut c = TodoCollection::new();
    let (reply_tx, reply_rx) = sync_channel(1);
    c.execute(CollectionMessages::GetList(reply_tx));
    let list = reply_rx.recv().expect("the actor replies before moving on");
    assert!(list.is_empty());
}

#[test]
fn commands_drive_the_full_lifecycle() {
    let mut c = TodoCollection::new();

    let (reply_tx, reply_rx) = sync_channel(1);
    c.execute(CollectionMessages::PostList(input("wash up"), String::from("/t/ID"), reply_tx));
    let created = reply_rx.recv().expect("reply");
    assert_eq!(created.id, 0);
    assert_eq!(created.location, "/t/0");

    let (reply_tx, reply_rx) = sync_channel(1);
    let edit = TodoEdit { title: None, completed: Some(true), order: None };
    c.execute(CollectionMessages::PatchItem(0, edit, reply_tx));
    let edited = reply_rx.recv().expect("reply").expect("item 0 exists");
    assert!(edited.completed);
    assert_eq!(edited.title, "wash up");

    let (reply_tx, reply_rx) = sync_channel(1);
    c.execute(CollectionMessages::GetItem(0, reply_tx));
    let fetched = reply_rx.recv().expect("reply").expect("item 0 exists");
    assert!(fetched.completed);

    let (reply_tx, reply_rx) = sync_channel(1);
    c.execute(CollectionMessages::DeleteItem(0, reply_tx));
    assert_eq!(reply_rx.recv().expect("reply"), Some(true));

    let (reply_tx, reply_rx) = sync_channel(1);
    c.execute(CollectionMessages::DeleteItem(0, reply_tx));
    assert_eq!(reply_rx.recv().expect("reply"), None);

    let (reply_tx, reply_rx) = sync_channel(1);
    c.execute(CollectionMessages::DeleteList(reply_tx));
    assert!(reply_rx.recv().expect("reply"));
}

#[test]
fn abandoned_reply_does_not_hurt_the_store() {
    let mut c = TodoCollection::new();

    let (reply_tx, reply_rx) = sync_channel(1);
    drop(reply_rx);
    c.execute(CollectionMessages::PostList(input("nobody waits"), String::from("/ID"), reply_tx));

    let (reply_tx, reply_rx) = sync_channel(1);
    c.execute(CollectionMessages::GetList(reply_tx));
    let list = reply_rx.recv().expect("the store still answers");
    assert_eq!(list.len(), 1);
    assert_eq!(list[0].title, "nobody waits");

    let (reply_tx, reply_rx) = sync_channel(1);
    c.execute(CollectionMessages::PostList(input("next"), String::from("/ID"), reply_tx));
    assert_eq!(reply_rx.recv().expect("reply").id, 1);
}

#[test]
fn many_creates_lose_no_ids() {
    let mut c = TodoCollection::new();
    for k in 0..128usize {
        let (reply_tx, reply_rx) = sync_channel(1);
        c.execute(CollectionMessages::PostList(
            input(&format!("job {}", k)),
            String::from("/todos/ID"),
            reply_tx,
        ));
        assert_eq!(reply_rx.recv().expect("reply").id, k);
    }
    let (reply_tx, reply_rx) = sync_channel(1);
    c.execute(CollectionMessages::GetList(reply_tx));
    let list = reply_rx.recv().expect("reply");
    assert_eq!(list.len(), 128);
    for (k, todo) in list.iter().enumerate() {
        assert_eq!(todo.id, k);
    }
}

#[test]
fn a_dead_mailbox_fails_loudly() {
    let (tx, rx) = sync_channel(4);
    drop(rx);
    let client = TodoClient::new(tx);
    assert_eq!(client.get_list().unwrap_err(), StoreError::MailboxClosed);
    assert_eq!(
        client.post_list(input("late"), String::from("/ID")).unwrap_err(),
        StoreError::MailboxClosed,
    );
    assert_eq!(client.delete_list().unwrap_err(), StoreError::MailboxClosed);
    assert_eq!(client.get_item(0).unwrap_err(), StoreError::MailboxClosed);
    assert_eq!(client.delete_item(0).unwrap_err(), StoreError::MailboxClosed);
    let edit = TodoEdit { title: None, completed: None, order: None };
    assert_eq!(client.patch_item(0, edit).unwrap_err(), StoreError::MailboxClosed);
}
