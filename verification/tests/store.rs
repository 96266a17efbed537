use todo_store::collection::TodoCollection;
use todo_store::locator::render_decimal;
use todo_store::todo::{TodoEdit, TodoInput};

fn input(title: &str, order: Option<u32>) -> TodoInput {
    TodoInput { title: String::from(title), order }
}

fn no_edit() -> TodoEdit {
    TodoEdit { title: None, completed: None, order: None }
}

#[test]
fn create_ids_increase_without_gaps() {
    let mut c = TodoCollection::new();
    for k in 0..5usize {
        let todo = c.post_list(input("task", None), String::from("/todos/ID"));
        assert_eq!(todo.id, k);
    }
    let list = c.get_list();
    assert_eq!(list.len(), 5);
    for (k, todo) in list.iter().enumerate() {
        assert_eq!(todo.id, k);
    }
}

#[test]
fn clear_keeps_counter() {
    let mut c = TodoCollection::new();
    for _ in 0..3 {
        c.post_list(input("task", None), String::from("/ID"));
    }
    assert!(c.delete_list());
    assert!(c.get_list().is_empty());
    let todo = c.post_list(input("later", None), String::from("/ID"));
    assert_eq!(todo.id, 3);
}

#[test]
fn missing_id_reports_not_found() {
    let mut c = TodoCollection::new();
    c.post_list(input("a", None), String::from("/ID"));
    c.post_list(input("b", Some(4)), String::from("/ID"));
    let before: Vec<(usize, String)> =
        c.get_list().into_iter().map(|t| (t.id, t.title)).collect();

    assert!(c.get_item(99).is_none());
    assert!(c.delete_item(99).is_none());
    let mut edit = no_edit();
    edit.title = Some(String::from("x"));
    assert!(c.patch_item(99, edit).is_none());

    let after: Vec<(usize, String)> =
        c.get_list().into_iter().map(|t| (t.id, t.title)).collect();
    assert_eq!(before, after);
}

#[test]
fn edit_partial_keeps_absent_fields() {
    let mut c = TodoCollection::new();
    c.post_list(input("walk the dog", Some(2)), String::from("/todos/ID"));

    let mut only_completed = no_edit();
    only_completed.completed = Some(true);
    let edited = c.patch_item(0, only_completed).expect("item 0 exists");
    assert_eq!(edited.id, 0);
    assert_eq!(edited.title, "walk the dog");
    assert_eq!(edited.order, Some(2));
    assert_eq!(edited.location, "/todos/0");
    assert!(edited.completed);

    let mut only_title = no_edit();
    only_title.title = Some(String::from("walk the cat"));
    let edited = c.patch_item(0, only_title).expect("item 0 exists");
    assert_eq!(edited.title, "walk the cat");
    assert!(edited.completed);
    assert_eq!(edited.order, Some(2));

    let mut only_order = no_edit();
    only_order.order = Some(9);
    let edited = c.patch_item(0, only_order).expect("item 0 exists");
    assert_eq!(edited.order, Some(9));
    assert_eq!(edited.title, "walk the cat");
    assert!(edited.completed);
}

#[test]
fn end_to_end_scenario() {
    let mut c = TodoCollection::new();

    let created = c.post_list(input("buy milk", None), String::from(".../ID"));
    assert_eq!(created.id, 0);
    assert_eq!(created.title, "buy milk");
    assert!(!created.completed);
    assert_eq!(created.order, None);
    assert_eq!(created.location, ".../0");

    let mut edit = no_edit();
    edit.completed = Some(true);
    let edited = c.patch_item(0, edit).expect("item 0 exists");
    assert_eq!(edited.id, 0);
    assert_eq!(edited.title, "buy milk");
    assert!(edited.completed);
    assert_eq!(edited.order, None);
    assert_eq!(edited.location, ".../0");

    assert_eq!(c.delete_item(0), Some(true));
    assert!(c.get_item(0).is_none());
    assert!(c.get_list().is_empty());
}

#[test]
fn locator_substitution() {
    let mut c = TodoCollection::new();
    for _ in 0..7 {
        c.post_list(input("filler", None), String::from("/ID"));
    }
    let todo = c.post_list(input("seventh", None), String::from("http://host/ID"));
    assert_eq!(todo.id, 7);
    assert_eq!(todo.location, "http://host/7");
}

#[test]
fn locator_substitutes_every_token() {
    let mut c = TodoCollection::new();
    let todo = c.post_list(input("twice", None), String::from("/ID/sub/ID"));
    assert_eq!(todo.location, "/0/sub/0");
}

#[test]
fn locator_without_token_is_kept() {
    let mut c = TodoCollection::new();
    let todo = c.post_list(input("plain", None), String::from("/fixed"));
    assert_eq!(todo.location, "/fixed");
}

#[test]
fn decimal_rendering_is_exact() {
    assert_eq!(render_decimal(0), "0");
    assert_eq!(render_decimal(7), "7");
    assert_eq!(render_decimal(10), "10");
    assert_eq!(render_decimal(907), "907");
    assert_eq!(render_decimal(usize::MAX), usize::MAX.to_string());
}

#[test]
fn delete_reports_only_the_first_removal() {
    let mut c = TodoCollection::new();
    c.post_list(input("once", None), String::from("/ID"));
    assert_eq!(c.delete_item(0), Some(true));
    assert_eq!(c.delete_item(0), None);
}

#[test]
fn fetch_returns_a_copy_of_the_item() {
    let mut c = TodoCollection::new();
    c.post_list(input("original", Some(1)), String::from("/ID"));
    let fetched = c.get_item(0).expect("item 0 exists");
    assert_eq!(fetched.id, 0);
    assert_eq!(fetched.title, "original");
    assert_eq!(fetched.order, Some(1));
    assert_eq!(fetched.location, "/0");
    assert!(!fetched.completed);
}
