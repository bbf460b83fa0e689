//! Registry construction and dispatch.

use command_executor::command_executor::{
    CommandExecutorManager, DispatchError, ExecutorProfile, NamespacedCommandExecutor,
    RegistryError,
};

fn profile(namespace: &str, null_commands: &[&str], bool_commands: &[&str]) -> ExecutorProfile {
    ExecutorProfile {
        namespace: namespace.to_string(),
        null_commands: null_commands.iter().map(|s| s.to_string()).collect(),
        bool_commands: bool_commands.iter().map(|s| s.to_string()).collect(),
    }
}

#[test]
fn distinct_executors_build_and_advertise_union() {
    let manager =
        CommandExecutorManager::new(vec![profile("a", &["x"], &[]), profile("b", &["y"], &[])])
            .unwrap();
    let mut commands = manager.get_null_commands();
    commands.sort();
    assert_eq!(commands, vec!["a:x".to_string(), "b:y".to_string()]);
    assert_eq!(manager.get_bool_commands(), Vec::<String>::new());
}

#[test]
fn example_registry_dispatches_and_rejects() {
    let manager =
        CommandExecutorManager::new(vec![profile("a", &["x"], &[]), profile("b", &["y"], &[])])
            .unwrap();
    let resolved = manager.execute_null_command(&"a:x".to_string()).unwrap();
    assert_eq!(resolved, ("a".to_string(), "x".to_string()));
    assert_eq!(
        manager.execute_null_command(&"c:z".to_string()),
        Err(DispatchError::UnknownCommand)
    );
}

#[test]
fn duplicate_namespace_is_rejected() {
    let result =
        CommandExecutorManager::new(vec![profile("dup", &["x"], &[]), profile("dup", &["y"], &[])]);
    assert_eq!(result.unwrap_err(), RegistryError::DuplicateNamespace("dup".to_string()));
}

#[test]
fn repeated_subcommand_in_one_executor_is_rejected() {
    let result = CommandExecutorManager::new(vec![profile("a", &["x", "x"], &[])]);
    assert_eq!(result.unwrap_err(), RegistryError::DuplicateCommand("a:x".to_string()));
}

#[test]
fn colliding_qualified_names_across_executors_are_rejected() {
    // "a:b" + ":" + "c" and "a" + ":" + "b:c" both qualify to "a:b:c".
    let result =
        CommandExecutorManager::new(vec![profile("a:b", &["c"], &[]), profile("a", &["b:c"], &[])]);
    assert_eq!(result.unwrap_err(), RegistryError::DuplicateCommand("a:b:c".to_string()));
}

#[test]
fn categories_are_checked_independently() {
    // The same qualified name may appear once per category.
    let manager = CommandExecutorManager::new(vec![profile("a", &["x"], &["x"])]).unwrap();
    assert_eq!(manager.get_null_commands(), vec!["a:x".to_string()]);
    assert_eq!(manager.get_bool_commands(), vec!["a:x".to_string()]);
    let resolved = manager.execute_bool_command(&"a:x".to_string()).unwrap();
    assert_eq!(resolved, ("a".to_string(), "x".to_string()));
}

#[test]
fn empty_registry_builds() {
    let manager = CommandExecutorManager::new(vec![]).unwrap();
    assert_eq!(manager.get_null_commands(), Vec::<String>::new());
    assert_eq!(
        manager.execute_null_command(&"a:x".to_string()),
        Err(DispatchError::UnknownCommand)
    );
}

#[test]
fn bool_dispatch_rejects_unknown_names() {
    let manager = CommandExecutorManager::new(vec![profile("a", &[], &["q"])]).unwrap();
    assert_eq!(
        manager.execute_bool_command(&"a:missing".to_string()),
        Err(DispatchError::UnknownCommand)
    );
    assert_eq!(
        manager.execute_null_command(&"a:q".to_string()),
        Err(DispatchError::UnknownCommand)
    );
}

#[test]
fn profile_reports_its_namespace() {
    let p = profile("boards", &[], &[]);
    assert_eq!(p.get_executor_namespace(), "boards");
}
