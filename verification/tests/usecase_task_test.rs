use gakusai2024_backend::domain::task::{Task, TaskExt};
use gakusai2024_backend::domain::timestamp::Timestamp;
use gakusai2024_backend::error::CustomError;
use gakusai2024_backend::infrastructure::memory::task::MemoryTaskRepository;
use gakusai2024_backend::usecase::task::{TaskUsecase, TaskUsecaseTrait};

const TEST_UUID: u128 = 0x00000000_0000_0000_0000_ffff00000000;
const TEST_UUID2: u128 = 0x00000000_0000_0000_0000_ffff00000001;

fn test_task(id: u128, user_id: &str) -> Task {
    Task {
        id,
        title: "test_title".to_string(),
        description: "test_description".to_string(),
        user_id: user_id.to_string(),
        due_date: Timestamp { seconds: 0, nanos: 0 },
        priority: 1,
        weight: 1,
        created_at: Timestamp { seconds: 100, nanos: 0 },
        updated_at: Timestamp { seconds: 100, nanos: 0 },
    }
}

#[test]
fn test_task_insert() {
    let mut repository = MemoryTaskRepository::new();
    repository.add_user("testuserid".to_string());
    let mut usecase = TaskUsecase::new(Box::new(repository));
    let task = test_task(TEST_UUID, "testuserid");
    let result = usecase.insert(task);
    assert!(result.is_ok());
    assert_eq!(result.unwrap(), TEST_UUID);
}

#[test]
fn test_task_find() {
    let mut repository = MemoryTaskRepository::new();
    repository.add_user("testuserid".to_string());
    let mut usecase = TaskUsecase::new(Box::new(repository));
    usecase.insert(test_task(TEST_UUID, "testuserid")).unwrap();
    let result = usecase.find(TEST_UUID);
    assert!(result.is_ok());
    let found = result.unwrap();
    assert_eq!(found.id, TEST_UUID);
    assert_eq!(found.title, "test_title");
    assert_eq!(found.description, "test_description");
    assert_eq!(found.user_id, "testuserid");
}

#[test]
fn test_listtasks_find() {
    let mut repository = MemoryTaskRepository::new();
    repository.add_user("harukun".to_string());
    let mut usecase = TaskUsecase::new(Box::new(repository));
    usecase.insert(test_task(TEST_UUID, "harukun")).unwrap();
    usecase.insert(test_task(TEST_UUID2, "harukun")).unwrap();
    let result = usecase.find_from_user_id("harukun".to_string());
    assert!(result.is_ok());
    let tasks = result.unwrap();
    assert_eq!(tasks.len(), 2);
    assert!(tasks.iter().all(|t| t.user_id == "harukun"));
}

#[test]
fn test_task_update_success() {
    let mut repository = MemoryTaskRepository::new();
    repository.add_user("testuserid".to_string());
    let mut usecase = TaskUsecase::new(Box::new(repository));
    usecase.insert(test_task(TEST_UUID, "testuserid")).unwrap();

    let original_task = usecase.find(TEST_UUID).unwrap();
    let updated_task = original_task.update(
        Some("updated_title".to_string()),
        Some("updated_description".to_string()),
        None,
        None,
        Some(2),
        Some(2),
        Timestamp { seconds: 200, nanos: 0 },
    );

    let result = usecase.update(updated_task);
    assert!(result.is_ok());
    assert_eq!(result.unwrap(), TEST_UUID);

    let found = usecase.find(TEST_UUID).unwrap();
    assert_eq!(found.title, "updated_title");
    assert_eq!(found.description, "updated_description");
    assert_eq!(found.priority, 2);
    assert_eq!(found.weight, 2);
}

#[test]
fn test_task_update_error() {
    let mut repository = MemoryTaskRepository::new();
    repository.add_user("testuserid".to_string());
    let mut usecase = TaskUsecase::new(Box::new(repository));
    let task = test_task(TEST_UUID, "testuserid");

    let result = usecase.update(task);
    assert!(result.is_err());
    match result.unwrap_err() {
        err @ CustomError::DbNotFound(_) => {
            assert_eq!(err.message(), "00000000-0000-0000-0000-ffff00000000")
        },
        _ => panic!("Unexpected error type"),
    }
}

#[test]
fn insert_for_unknown_user_is_a_store_error() {
    let repository = MemoryTaskRepository::new();
    let mut usecase = TaskUsecase::new(Box::new(repository));
    let result = usecase.insert(test_task(TEST_UUID, "nobody"));
    assert!(matches!(result, Err(CustomError::Db(_))));
}

#[test]
fn insert_duplicate_id_is_a_store_error() {
    let mut repository = MemoryTaskRepository::new();
    repository.add_user("testuserid".to_string());
    let mut usecase = TaskUsecase::new(Box::new(repository));
    assert!(usecase.insert(test_task(TEST_UUID, "testuserid")).is_ok());
    let result = usecase.insert(test_task(TEST_UUID, "testuserid"));
    assert!(matches!(result, Err(CustomError::Db(_))));
}

#[test]
fn find_missing_id_is_not_found() {
    let repository = MemoryTaskRepository::new();
    let usecase = TaskUsecase::new(Box::new(repository));
    let result = usecase.find(TEST_UUID);
    assert!(matches!(result, Err(CustomError::DbNotFound(_))));
}
