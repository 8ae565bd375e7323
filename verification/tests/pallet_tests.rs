use todo_list::error::Error;
use todo_list::pallet::{Event, Pallet};
use todo_list::stats::TodoStatistics;
use todo_list::todo::Priority;

type Row = (u64, Vec<u8>, Vec<u8>, bool, Priority, u64, u64, Option<u64>);

// Everything that is kept for one account, as plain values.
fn snapshot(pallet: &Pallet, account: u64) -> (Vec<Row>, u64, TodoStatistics) {
    let rows = pallet
        .todos(account)
        .iter()
        .map(|t| {
            (
                t.id,
                t.title.to_vec(),
                t.description.to_vec(),
                t.completed,
                t.priority,
                t.created_at,
                t.updated_at,
                t.completed_at,
            )
        })
        .collect();
    (rows, pallet.next_id(account), pallet.todo_stats(account))
}

// Helper function to create a todo
fn create_test_todo(
    pallet: &mut Pallet,
    account: u64,
    title: &[u8],
    description: &[u8],
    priority: Priority,
    now: u64,
) -> Event {
    let r = pallet.create_todo(account, title.to_vec(), description.to_vec(), priority, now);
    assert!(r.is_ok());
    r.unwrap()
}

#[test]
fn create_todo_works() {
    let mut pallet = Pallet::new();
    let account = 1;
    let title = b"Test Todo";
    let description = b"This is a test todo";
    let priority = Priority::Medium;

    let event = create_test_todo(&mut pallet, account, title, description, priority, 1000);

    let todos = pallet.todos(account);
    assert_eq!(todos.len(), 1);

    let todo = &todos[0];
    assert_eq!(todo.id, 0);
    assert_eq!(todo.title.as_slice(), title);
    assert_eq!(todo.description.as_slice(), description);
    assert_eq!(todo.priority, priority);
    assert_eq!(todo.completed, false);
    assert_eq!(todo.created_at, 1000);
    assert_eq!(todo.updated_at, 1000);
    assert_eq!(todo.completed_at, None);

    assert_eq!(pallet.next_id(account), 1);

    let stats = pallet.todo_stats(account);
    assert_eq!(stats.total, 1);
    assert_eq!(stats.completed, 0);
    assert_eq!(stats.pending, 1);
    assert_eq!(stats.high_priority, 0);

    assert_eq!(event, Event::TodoCreated { who: account, id: 0 });
}

#[test]
fn create_todo_fails_with_title_too_long() {
    let mut pallet = Pallet::new();
    let account = 1;
    let title = vec![b'a'; 101]; // 101 characters, max is 100
    let description = b"This is a test todo".to_vec();
    let priority = Priority::Medium;

    let before = snapshot(&pallet, account);
    assert_eq!(
        pallet.create_todo(account, title, description, priority, 1000),
        Err(Error::TitleTooLong)
    );
    assert_eq!(snapshot(&pallet, account), before);
    assert!(pallet.lists.is_empty());
}

#[test]
fn create_todo_fails_with_description_too_long() {
    let mut pallet = Pallet::new();
    let account = 1;
    let title = b"Test Todo".to_vec();
    let description = vec![b'a'; 501]; // 501 characters, max is 500
    let priority = Priority::Medium;

    let before = snapshot(&pallet, account);
    assert_eq!(
        pallet.create_todo(account, title, description, priority, 1000),
        Err(Error::DescriptionTooLong)
    );
    assert_eq!(snapshot(&pallet, account), before);
    assert!(pallet.lists.is_empty());
}

#[test]
fn update_todo_works() {
    let mut pallet = Pallet::new();
    let account = 1;
    let title = b"Test Todo";
    let description = b"This is a test todo";
    let priority = Priority::Medium;

    create_test_todo(&mut pallet, account, title, description, priority, 1000);

    let new_title = b"Updated Todo".to_vec();
    let new_description = b"This is an updated todo".to_vec();
    let new_priority = Priority::High;

    let r = pallet.update_todo(
        account,
        0,
        Some(new_title.clone()),
        Some(new_description.clone()),
        Some(new_priority.clone()),
        2000,
    );
    assert_eq!(r, Ok(Event::TodoUpdated { who: account, id: 0 }));

    let todos = pallet.todos(account);
    let todo = &todos[0];
    assert_eq!(todo.title.as_slice(), new_title);
    assert_eq!(todo.description.as_slice(), new_description);
    assert_eq!(todo.priority, new_priority);
    assert_eq!(todo.updated_at, 2000);

    let stats = pallet.todo_stats(account);
    assert_eq!(stats.high_priority, 1);
}

#[test]
fn update_todo_fails_with_nonexistent_id() {
    let mut pallet = Pallet::new();
    let account = 1;

    let before = snapshot(&pallet, account);
    assert_eq!(
        pallet.update_todo(account, 0, Some(b"Updated Todo".to_vec()), None, None, 1000),
        Err(Error::TodoNotFound)
    );
    assert_eq!(snapshot(&pallet, account), before);
}

#[test]
fn toggle_todo_completion_works() {
    let mut pallet = Pallet::new();
    let account = 1;
    let title = b"Test Todo";
    let description = b"This is a test todo";
    let priority = Priority::Medium;

    create_test_todo(&mut pallet, account, title, description, priority, 1000);

    let r = pallet.toggle_todo_completion(account, 0, 2000);
    assert_eq!(r, Ok(Event::TodoCompletionToggled { who: account, id: 0, completed: true }));

    let todos = pallet.todos(account);
    let todo = &todos[0];
    assert_eq!(todo.completed, true);
    assert_eq!(todo.updated_at, 2000);
    assert_eq!(todo.completed_at, Some(2000));

    let stats = pallet.todo_stats(account);
    assert_eq!(stats.completed, 1);
    assert_eq!(stats.pending, 0);

    let r = pallet.toggle_todo_completion(account, 0, 3000);
    assert_eq!(r, Ok(Event::TodoCompletionToggled { who: account, id: 0, completed: false }));

    let todos = pallet.todos(account);
    let todo = &todos[0];
    assert_eq!(todo.completed, false);
    assert_eq!(todo.updated_at, 3000);
    assert_eq!(todo.completed_at, None);

    let stats = pallet.todo_stats(account);
    assert_eq!(stats.completed, 0);
    assert_eq!(stats.pending, 1);
}

#[test]
fn toggle_todo_completion_fails_with_nonexistent_id() {
    let mut pallet = Pallet::new();
    let account = 1;

    let before = snapshot(&pallet, account);
    assert_eq!(pallet.toggle_todo_completion(account, 0, 1000), Err(Error::TodoNotFound));
    assert_eq!(snapshot(&pallet, account), before);
}

#[test]
fn delete_todo_works() {
    let mut pallet = Pallet::new();
    let account = 1;
    let title = b"Test Todo";
    let description = b"This is a test todo";
    let priority = Priority::Medium;

    create_test_todo(&mut pallet, account, title, description, priority, 1000);
    create_test_todo(
        &mut pallet,
        account,
        b"Another Todo",
        b"This is another test todo",
        Priority::High,
        1000,
    );

    assert_eq!(pallet.todos(account).len(), 2);

    assert_eq!(pallet.delete_todo(account, 0), Ok(Event::TodoDeleted { who: account, id: 0 }));

    let todos = pallet.todos(account);
    assert_eq!(todos.len(), 1);
    assert_eq!(todos[0].id, 1);

    let stats = pallet.todo_stats(account);
    assert_eq!(stats.total, 1);
    assert_eq!(stats.high_priority, 1);
}

#[test]
fn delete_todo_fails_with_nonexistent_id() {
    let mut pallet = Pallet::new();
    let account = 1;

    let before = snapshot(&pallet, account);
    assert_eq!(pallet.delete_todo(account, 0), Err(Error::TodoNotFound));
    assert_eq!(snapshot(&pallet, account), before);
}

#[test]
fn todo_list_full_error() {
    let mut pallet = Pallet::new();
    let account = 1;
    let title = b"Test Todo";
    let description = b"This is a test todo";
    let priority = Priority::Medium;

    // Create the maximum number of todos (50)
    for _ in 0..50 {
        create_test_todo(&mut pallet, account, title, description, priority, 1000);
    }

    let before = snapshot(&pallet, account);
    assert_eq!(
        pallet.create_todo(account, title.to_vec(), description.to_vec(), priority, 1000),
        Err(Error::TodoListFull)
    );
    assert_eq!(snapshot(&pallet, account), before);
    assert_eq!(pallet.todos(account).len(), 50);
    assert_eq!(pallet.next_id(account), 50);
}

#[test]
fn multiple_accounts_have_separate_todos() {
    let mut pallet = Pallet::new();
    let account1 = 1;
    let account2 = 2;

    create_test_todo(
        &mut pallet,
        account1,
        b"Account 1 Todo",
        b"This is a todo for account 1",
        Priority::Medium,
        1000,
    );
    create_test_todo(
        &mut pallet,
        account2,
        b"Account 2 Todo",
        b"This is a todo for account 2",
        Priority::High,
        1000,
    );

    let todos1 = pallet.todos(account1);
    let todos2 = pallet.todos(account2);

    assert_eq!(todos1.len(), 1);
    assert_eq!(todos2.len(), 1);

    assert_eq!(todos1[0].title.as_slice(), b"Account 1 Todo");
    assert_eq!(todos2[0].title.as_slice(), b"Account 2 Todo");

    let stats1 = pallet.todo_stats(account1);
    let stats2 = pallet.todo_stats(account2);

    assert_eq!(stats1.total, 1);
    assert_eq!(stats2.total, 1);

    assert_eq!(stats1.high_priority, 0);
    assert_eq!(stats2.high_priority, 1);
}

#[test]
fn unknown_account_has_the_empty_list() {
    let pallet = Pallet::new();
    assert_eq!(pallet.todos(7).len(), 0);
    assert_eq!(pallet.next_id(7), 0);
    assert_eq!(
        pallet.todo_stats(7),
        TodoStatistics { total: 0, completed: 0, pending: 0, high_priority: 0 }
    );
    assert_eq!(pallet.list(7).next_id, 0);
}

#[test]
fn title_is_judged_before_description_and_capacity() {
    let mut pallet = Pallet::new();
    for _ in 0..50 {
        create_test_todo(&mut pallet, 1, b"t", b"d", Priority::Low, 1);
    }
    let before = snapshot(&pallet, 1);
    assert_eq!(
        pallet.create_todo(1, vec![b'a'; 101], vec![b'b'; 501], Priority::Low, 2),
        Err(Error::TitleTooLong)
    );
    assert_eq!(
        pallet.create_todo(1, vec![b'a'; 100], vec![b'b'; 501], Priority::Low, 2),
        Err(Error::DescriptionTooLong)
    );
    assert_eq!(
        pallet.create_todo(1, vec![b'a'; 100], vec![b'b'; 500], Priority::Low, 2),
        Err(Error::TodoListFull)
    );
    assert_eq!(snapshot(&pallet, 1), before);
}

#[test]
fn failed_operation_on_one_account_leaves_all_accounts_alone() {
    let mut pallet = Pallet::new();
    create_test_todo(&mut pallet, 1, b"one", b"first", Priority::High, 10);
    create_test_todo(&mut pallet, 2, b"two", b"second", Priority::Low, 20);
    let before1 = snapshot(&pallet, 1);
    let before2 = snapshot(&pallet, 2);

    assert_eq!(pallet.delete_todo(1, 5), Err(Error::TodoNotFound));
    assert_eq!(pallet.toggle_todo_completion(1, 5, 30), Err(Error::TodoNotFound));
    assert_eq!(pallet.update_todo(1, 5, None, None, None, 30), Err(Error::TodoNotFound));
    assert_eq!(
        pallet.update_todo(1, 0, Some(vec![b'x'; 101]), None, Some(Priority::Low), 30),
        Err(Error::TitleTooLong)
    );
    assert_eq!(
        pallet.update_todo(1, 0, Some(b"ok".to_vec()), Some(vec![b'x'; 501]), None, 30),
        Err(Error::DescriptionTooLong)
    );
    assert_eq!(pallet.delete_todo(3, 0), Err(Error::TodoNotFound));

    assert_eq!(snapshot(&pallet, 1), before1);
    assert_eq!(snapshot(&pallet, 2), before2);
    assert_eq!(pallet.lists.len(), 2);
}

#[test]
fn operation_on_one_account_leaves_the_other_alone() {
    let mut pallet = Pallet::new();
    create_test_todo(&mut pallet, 1, b"one", b"first", Priority::High, 10);
    create_test_todo(&mut pallet, 2, b"two", b"second", Priority::Low, 20);
    let before2 = snapshot(&pallet, 2);

    assert!(pallet.toggle_todo_completion(1, 0, 30).is_ok());
    assert!(pallet.update_todo(1, 0, None, None, Some(Priority::Low), 40).is_ok());
    assert!(pallet.delete_todo(1, 0).is_ok());

    assert_eq!(snapshot(&pallet, 2), before2);
    assert_eq!(pallet.todos(1).len(), 0);
    assert_eq!(pallet.next_id(1), 1);
}
