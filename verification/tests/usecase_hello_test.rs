use gakusai2024_backend::domain::hello::Hello;
use gakusai2024_backend::error::CustomError;
use gakusai2024_backend::infrastructure::memory::hello::MemoryHelloRepository;
use gakusai2024_backend::usecase::hello::{HelloUsecase, HelloUsecaseTrait};

#[test]
fn test_insert() {
    let repository = MemoryHelloRepository::new();
    let mut usecase = HelloUsecase::new(Box::new(repository));
    let hello = Hello {
        name: "test_name".to_string(),
        message: "test_message".to_string(),
    };
    let result = usecase.insert(hello);
    assert!(result.is_ok());
    assert_eq!(result.unwrap(), "test_name".to_string());
}

#[test]
fn test_find() {
    let repository = MemoryHelloRepository::new();
    let mut usecase = HelloUsecase::new(Box::new(repository));
    let hello = Hello {
        name: "test_name".to_string(),
        message: "test_message".to_string(),
    };
    usecase.insert(hello).unwrap();
    let result = usecase.find("test_name".to_string());
    assert!(result.is_ok());
    let found = result.unwrap();
    assert_eq!(found.name, "test_name");
    assert_eq!(found.message, "test_message");
}

#[test]
fn duplicate_name_is_a_store_error() {
    let repository = MemoryHelloRepository::new();
    let mut usecase = HelloUsecase::new(Box::new(repository));
    let first = Hello {
        name: "test_name".to_string(),
        message: "test_message".to_string(),
    };
    let second = Hello {
        name: "test_name".to_string(),
        message: "another_message".to_string(),
    };
    assert!(usecase.insert(first).is_ok());
    let result = usecase.insert(second);
    assert!(matches!(result, Err(CustomError::Db(_))));
    let found = usecase.find("test_name".to_string()).unwrap();
    assert_eq!(found.message, "test_message");
}

#[test]
fn missing_name_is_not_found() {
    let repository = MemoryHelloRepository::new();
    let usecase = HelloUsecase::new(Box::new(repository));
    let result = usecase.find("missing".to_string());
    assert!(matches!(result, Err(CustomError::DbNotFound(_))));
}
