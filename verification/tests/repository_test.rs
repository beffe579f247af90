use gakusai2024_backend::domain::hello::Hello;
use gakusai2024_backend::domain::repository::hello::HelloRepositoryTrait;
use gakusai2024_backend::domain::repository::task::TaskRepositoryTrait;
use gakusai2024_backend::domain::task::{Task, TaskExt};
use gakusai2024_backend::domain::timestamp::Timestamp;
use gakusai2024_backend::error::CustomError;
use gakusai2024_backend::infrastructure::memory::hello::MemoryHelloRepository;
use gakusai2024_backend::infrastructure::memory::task::MemoryTaskRepository;

fn task(id: u128, user_id: &str, title: &str) -> Task {
    Task {
        id,
        title: title.to_string(),
        description: "test_description".to_string(),
        user_id: user_id.to_string(),
        due_date: Timestamp { seconds: 0, nanos: 0 },
        priority: 1,
        weight: 1,
        created_at: Timestamp { seconds: 50, nanos: 0 },
        updated_at: Timestamp { seconds: 50, nanos: 0 },
    }
}

#[test]
fn insert_then_find_returns_the_inserted_record() {
    let mut repository = MemoryTaskRepository::new();
    repository.add_user("u1".to_string());
    let id = repository.insert(task(1, "u1", "test_title")).unwrap();
    assert_eq!(id, 1);

    let found = repository.find(id).unwrap();
    assert_eq!(found.title, "test_title");
    assert_eq!(found.description, "test_description");
    assert_eq!(found.user_id, "u1");
    assert_eq!(found.due_date, Timestamp { seconds: 0, nanos: 0 });
    assert_eq!(found.priority, 1);
    assert_eq!(found.weight, 1);

    // `created_at` is stable across subsequent finds, and `updated_at`
    // does not move without an explicit update.
    let again = repository.find(id).unwrap();
    assert_eq!(again.created_at, found.created_at);
    assert_eq!(again.updated_at, found.updated_at);

    // Inserting another record disturbs nothing.
    repository.insert(task(2, "u1", "other_title")).unwrap();
    let third = repository.find(id).unwrap();
    assert_eq!(third.created_at, found.created_at);
    assert_eq!(third.updated_at, found.updated_at);
    assert_eq!(third.title, "test_title");
}

#[test]
fn update_scenario_merges_and_overwrites() {
    let mut repository = MemoryTaskRepository::new();
    repository.add_user("u1".to_string());
    let id = repository.insert(task(9, "u1", "test_title")).unwrap();

    let found = repository.find(id).unwrap();
    let merged = found.update(
        Some("updated_title".to_string()),
        None,
        None,
        None,
        Some(2),
        None,
        Timestamp { seconds: 60, nanos: 0 },
    );
    repository.update(merged).unwrap();

    let after = repository.find(id).unwrap();
    assert_eq!(after.title, "updated_title");
    assert_eq!(after.priority, 2);
    assert_eq!(after.description, "test_description");
    assert_eq!(after.created_at, Timestamp { seconds: 50, nanos: 0 });
    assert_eq!(after.updated_at, Timestamp { seconds: 60, nanos: 0 });
}

#[test]
fn find_nonexistent_id_fails_with_not_found() {
    let repository = MemoryTaskRepository::new();
    let result = repository.find(42);
    assert!(matches!(result, Err(CustomError::DbNotFound(_))));
}

#[test]
fn list_by_owner_separates_users() {
    let mut repository = MemoryTaskRepository::new();
    repository.add_user("u1".to_string());
    repository.add_user("u2".to_string());
    repository.insert(task(1, "u1", "a")).unwrap();
    repository.insert(task(2, "u2", "b")).unwrap();
    repository.insert(task(3, "u1", "c")).unwrap();

    let for_u1 = repository.find_from_user_id("u1".to_string()).unwrap();
    assert_eq!(for_u1.len(), 2);
    assert!(for_u1.iter().all(|t| t.user_id == "u1"));
    assert!(for_u1.iter().any(|t| t.id == 1));
    assert!(for_u1.iter().any(|t| t.id == 3));

    // A task inserted for u2 never appears in u1's list.
    repository.insert(task(4, "u2", "d")).unwrap();
    let for_u1_after = repository.find_from_user_id("u1".to_string()).unwrap();
    assert_eq!(for_u1_after.len(), 2);

    // A user with zero tasks gets an empty sequence, not an error.
    repository.add_user("u3".to_string());
    let for_u3 = repository.find_from_user_id("u3".to_string()).unwrap();
    assert!(for_u3.is_empty());
}

#[test]
fn greeting_round_trip_and_not_found() {
    let mut repository = MemoryHelloRepository::new();
    repository
        .insert(Hello { name: "Tonic".to_string(), message: "Hello, Tonic".to_string() })
        .unwrap();

    let found = repository.find("Tonic".to_string()).unwrap();
    assert_eq!(found.message, "Hello, Tonic");

    let missing = repository.find("missing".to_string());
    assert!(matches!(missing, Err(CustomError::DbNotFound(_))));
}
