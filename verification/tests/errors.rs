//! The errors of an import and their messages.

use bellande_rust_import::ImportError;

#[test]
fn not_found_message() {
    let error = ImportError::ModuleNotFound { name: "shapes".to_string() };
    assert_eq!(error.message(), "Module 'shapes' not found");
    assert_eq!(error.name(), "shapes");
}

#[test]
fn read_error_message() {
    let error = ImportError::ModuleReadError {
        name: "shapes".to_string(),
        cause: "permission denied".to_string(),
    };
    assert_eq!(error.message(), "Failed to read module 'shapes': permission denied");
    assert_eq!(error.name(), "shapes");
}

#[test]
fn parse_error_message() {
    let error = ImportError::ModuleParseError {
        name: "shapes".to_string(),
        cause: "expected identifier".to_string(),
    };
    assert_eq!(error.message(), "Failed to parse module 'shapes': expected identifier");
    assert_eq!(error.name(), "shapes");
}

#[test]
fn message_of_an_empty_name() {
    let error = ImportError::ModuleNotFound { name: String::new() };
    assert_eq!(error.message(), "Module '' not found");
}

#[test]
fn clone_of_an_error_is_equal_to_it() {
    let errors = vec![
        ImportError::ModuleNotFound { name: "a".to_string() },
        ImportError::ModuleReadError { name: "a".to_string(), cause: "b".to_string() },
        ImportError::ModuleParseError { name: "a".to_string(), cause: "b".to_string() },
    ];
    for error in &errors {
        assert_eq!(&error.clone(), error);
    }
    assert_ne!(errors[1], errors[2]);
}
