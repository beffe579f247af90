use gakusai2024_backend::domain::hello::Hello;
use gakusai2024_backend::domain::task::Task;
use gakusai2024_backend::domain::timestamp::Timestamp;
use gakusai2024_backend::infrastructure::memory::hello::MemoryHelloRepository;
use gakusai2024_backend::infrastructure::memory::task::MemoryTaskRepository;
use gakusai2024_backend::interface::handler::hello::{HelloHandler, HelloHandlerTrait};
use gakusai2024_backend::interface::handler::task::{TaskHandler, TaskHandlerTrait};
use gakusai2024_backend::interface::message::{
    CreateHelloRequest, CreateTaskRequest, GetListTasksRequest, GetTaskRequest, ReadHelloRequest,
    TaskRequest, TaskUpdate, UpdateTaskRequest,
};
use gakusai2024_backend::interface::status::StatusCode;
use gakusai2024_backend::usecase::hello::{HelloUsecase, HelloUsecaseTrait};
use gakusai2024_backend::usecase::task::{TaskUsecase, TaskUsecaseTrait};

type MemTaskHandler = TaskHandler<TaskUsecase<MemoryTaskRepository>, MemoryTaskRepository>;
type MemHelloHandler = HelloHandler<HelloUsecase<MemoryHelloRepository>, MemoryHelloRepository>;

fn task_handler_for(users: &[&str]) -> MemTaskHandler {
    let mut repository = MemoryTaskRepository::new();
    for u in users {
        repository.add_user(u.to_string());
    }
    let usecase = TaskUsecase::new(Box::new(repository));
    TaskHandler::new(Box::new(usecase))
}

fn task_request(title: &str, user_id: &str) -> TaskRequest {
    TaskRequest {
        title: title.to_string(),
        description: Some("test_description".to_string()),
        due_date: Some(Timestamp { seconds: 0, nanos: 0 }),
        priority: 1,
        weight: 1,
        user_id: user_id.to_string(),
    }
}

#[test]
fn test_hello() {
    let repository = MemoryHelloRepository::new();
    let usecase = HelloUsecase::new(Box::new(repository));
    let mut handler: MemHelloHandler = HelloHandler::new(Box::new(usecase));

    let create = handler.create_hello(CreateHelloRequest {
        hello: Some(Hello { name: "Tonic".to_string(), message: "Hello, Tonic".to_string() }),
    });
    assert!(create.is_ok());

    let read = handler.read_hello(ReadHelloRequest { name: "Tonic".to_string() }).unwrap();
    let hello = read.hello.unwrap();
    assert_eq!(hello.name, "Tonic");
    assert_eq!(hello.message, "Hello, Tonic");

    let missing = handler.read_hello(ReadHelloRequest { name: "missing".to_string() });
    assert!(missing.is_err());
    assert_eq!(missing.unwrap_err().code, StatusCode::Internal);
}

#[test]
fn create_hello_requires_the_nested_message() {
    let repository = MemoryHelloRepository::new();
    let usecase = HelloUsecase::new(Box::new(repository));
    let mut handler: MemHelloHandler = HelloHandler::new(Box::new(usecase));

    let result = handler.create_hello(CreateHelloRequest { hello: None });
    assert!(result.is_err());
    let status = result.unwrap_err();
    assert_eq!(status.code, StatusCode::InvalidArgument);
    assert_eq!(status.message, "Hello is required");
}

#[test]
fn test_task() {
    let mut handler = task_handler_for(&["test_user"]);

    let created = handler
        .create_task(CreateTaskRequest { task_request: Some(task_request("test_title", "test_user")) })
        .unwrap();
    let task_id = created.task_id.clone();
    assert_eq!(task_id.len(), 36);

    let got = handler.get_task(GetTaskRequest { task_id: task_id.clone() }).unwrap();
    let task = got.task.unwrap();
    assert_eq!(task.id, task_id);
    assert_eq!(task.title, "test_title");
    assert_eq!(task.description, Some("test_description".to_string()));
    assert_eq!(task.due_date, Some(Timestamp { seconds: 0, nanos: 0 }));
    assert_eq!(task.priority, 1);
    assert_eq!(task.weight, 1);
    assert_eq!(task.user_id, "test_user");

    for title in ["test_title2", "test_title3", "test_title4"] {
        handler
            .create_task(CreateTaskRequest { task_request: Some(task_request(title, "test_user")) })
            .unwrap();
    }

    let listed = handler
        .get_list_tasks(GetListTasksRequest { user_id: "test_user".to_string() })
        .unwrap();
    assert_eq!(listed.tasks.len(), 4);
    let one = listed.tasks.iter().find(|t| t.title == "test_title2").expect("Task not found");
    assert_eq!(one.description, Some("test_description".to_string()));
    assert_eq!(one.priority, 1);
    assert_eq!(one.user_id, "test_user");

    let updated = handler
        .update_task(UpdateTaskRequest {
            task_id: task_id.clone(),
            task_update: Some(TaskUpdate {
                title: Some("updated_title".to_string()),
                description: Some("updated_description".to_string()),
                due_date: Some(Timestamp { seconds: 0, nanos: 0 }),
                priority: Some(2),
                weight: Some(2),
                user_id: Some("test_user".to_string()),
            }),
        })
        .unwrap();
    assert_eq!(updated.task_id, task_id);

    let after = handler.get_task(GetTaskRequest { task_id }).unwrap();
    let task = after.task.unwrap();
    assert_eq!(task.title, "updated_title");
    assert_eq!(task.description, Some("updated_description".to_string()));
    assert_eq!(task.priority, 2);
    assert_eq!(task.weight, 2);
}

#[test]
fn create_task_requires_the_nested_message() {
    let mut handler = task_handler_for(&["test_user"]);
    let result = handler.create_task(CreateTaskRequest { task_request: None });
    assert_eq!(result.unwrap_err().code, StatusCode::InvalidArgument);
}

#[test]
fn create_task_rejects_a_missing_due_date() {
    let mut handler = task_handler_for(&["test_user"]);
    let mut request = task_request("test_title", "test_user");
    request.due_date = None;
    let result = handler.create_task(CreateTaskRequest { task_request: Some(request) });
    assert_eq!(result.unwrap_err().code, StatusCode::InvalidArgument);
}

#[test]
fn create_task_rejects_an_unrepresentable_due_date() {
    let mut handler = task_handler_for(&["test_user"]);
    let mut request = task_request("test_title", "test_user");
    request.due_date = Some(Timestamp { seconds: i64::MAX, nanos: 0 });
    let result = handler.create_task(CreateTaskRequest { task_request: Some(request) });
    let status = result.unwrap_err();
    assert_eq!(status.code, StatusCode::InvalidArgument);
    assert_eq!(status.message, "Invalid timestamp");
}

#[test]
fn create_task_for_unknown_user_is_internal() {
    let mut handler = task_handler_for(&[]);
    let result = handler
        .create_task(CreateTaskRequest { task_request: Some(task_request("test_title", "nobody")) });
    assert_eq!(result.unwrap_err().code, StatusCode::Internal);
}

#[test]
fn get_task_rejects_a_malformed_uuid() {
    let handler = task_handler_for(&["test_user"]);
    let result = handler.get_task(GetTaskRequest { task_id: "not-a-uuid".to_string() });
    let status = result.unwrap_err();
    assert_eq!(status.code, StatusCode::InvalidArgument);
    assert_eq!(status.message, "Invalid task ID");
}

#[test]
fn get_task_round_trips_a_known_uuid() {
    // A task stored under a chosen 128-bit key is reachable through the
    // handler by the textual form of that key, and the text the handler
    // hands back re-encodes the same key.
    let mut repository = MemoryTaskRepository::new();
    repository.add_user("test_user".to_string());
    let mut usecase = TaskUsecase::new(Box::new(repository));
    usecase
        .insert(Task {
            id: 0xffff00000000,
            title: "test_title".to_string(),
            description: "test_description".to_string(),
            user_id: "test_user".to_string(),
            due_date: Timestamp { seconds: 0, nanos: 0 },
            priority: 1,
            weight: 1,
            created_at: Timestamp { seconds: 1, nanos: 0 },
            updated_at: Timestamp { seconds: 1, nanos: 0 },
        })
        .unwrap();
    let handler: MemTaskHandler = TaskHandler::new(Box::new(usecase));

    let got = handler
        .get_task(GetTaskRequest { task_id: "00000000-0000-0000-0000-ffff00000000".to_string() })
        .unwrap();
    let task = got.task.unwrap();
    assert_eq!(task.id, "00000000-0000-0000-0000-ffff00000000");
    assert_eq!(task.title, "test_title");
}

#[test]
fn update_task_requires_the_nested_message() {
    let mut handler = task_handler_for(&["test_user"]);
    let result = handler.update_task(UpdateTaskRequest {
        task_id: "00000000-0000-0000-0000-ffff00000000".to_string(),
        task_update: None,
    });
    let status = result.unwrap_err();
    assert_eq!(status.code, StatusCode::InvalidArgument);
    assert_eq!(status.message, "Task is required");
}

#[test]
fn update_task_rejects_a_malformed_uuid() {
    let mut handler = task_handler_for(&["test_user"]);
    let result = handler.update_task(UpdateTaskRequest {
        task_id: "not-a-uuid".to_string(),
        task_update: Some(TaskUpdate {
            title: None,
            description: None,
            due_date: None,
            priority: None,
            weight: None,
            user_id: None,
        }),
    });
    assert_eq!(result.unwrap_err().code, StatusCode::InvalidArgument);
}

#[test]
fn update_task_on_a_missing_task_is_internal() {
    let mut handler = task_handler_for(&["test_user"]);
    let result = handler.update_task(UpdateTaskRequest {
        task_id: "00000000-0000-0000-0000-ffff00000000".to_string(),
        task_update: Some(TaskUpdate {
            title: Some("updated_title".to_string()),
            description: None,
            due_date: None,
            priority: None,
            weight: None,
            user_id: None,
        }),
    });
    assert_eq!(result.unwrap_err().code, StatusCode::Internal);
}

#[test]
fn get_list_tasks_for_a_user_without_tasks_is_empty() {
    let handler = task_handler_for(&["test_user"]);
    let listed = handler
        .get_list_tasks(GetListTasksRequest { user_id: "test_user".to_string() })
        .unwrap();
    assert!(listed.tasks.is_empty());
}
