use std::any::Any;

use anyhow::Result;
use module_registry::{Module, ModuleRegistry};

type Factory = fn() -> Result<Box<dyn Any + Send + Sync>>;

trait TextProcessor: Module {
    fn process(&self, input: &str) -> String;
}

struct UpperCaseProcessor;

impl Module for UpperCaseProcessor {
    fn name(&self) -> &str {
        "uppercase"
    }

    fn module_type(&self) -> &str {
        "text_processor"
    }
}

impl TextProcessor for UpperCaseProcessor {
    fn process(&self, input: &str) -> String {
        input.to_uppercase()
    }
}

fn create_uppercase() -> Result<Box<dyn Any + Send + Sync>> {
    Ok(Box::new(Box::new(UpperCaseProcessor) as Box<dyn TextProcessor>))
}

#[test]
fn test_registry_creation() {
    let registry = ModuleRegistry::<Factory>::new();
    assert_eq!(registry.count(), 0);
}

#[test]
fn test_module_registration() {
    let mut registry = ModuleRegistry::<Factory>::new();

    registry.register("uppercase", "text_processor", create_uppercase);

    assert_eq!(registry.count(), 1);
    assert!(registry.has_module("uppercase"));
    assert!(!registry.has_module("nonexistent"));
}

#[test]
fn test_module_creation() {
    let mut registry = ModuleRegistry::<Factory>::new();
    registry.register("uppercase", "text_processor", create_uppercase);

    let result = registry.create_any("uppercase");
    assert!(result.is_ok());
}

#[test]
fn test_list_modules() {
    let mut registry = ModuleRegistry::<Factory>::new();

    registry.register("module1", "type1", create_uppercase);
    registry.register("module2", "type2", create_uppercase);

    let names = registry.list_modules();
    assert_eq!(names.len(), 2);
    assert!(names.contains(&"module1".to_string()));
    assert!(names.contains(&"module2".to_string()));
}

#[test]
fn test_get_metadata() {
    let mut registry = ModuleRegistry::<Factory>::new();

    registry.register_with_metadata(
        "test_module",
        "test_type",
        "create_test",
        "test::path",
        "TestStruct",
        create_uppercase,
    );

    let metadata = registry.get_metadata("test_module");
    assert!(metadata.is_some());

    let meta = metadata.unwrap();
    assert_eq!(meta.name, "test_module");
    assert_eq!(meta.module_type, "test_type");
    assert_eq!(meta.struct_name, "TestStruct");
}

#[test]
fn test_module_not_found() {
    let registry = ModuleRegistry::<Factory>::new();

    let result = registry.create_any("nonexistent");
    assert!(result.is_err());
    assert!(result.unwrap_err().to_string().contains("not found"));
}

#[test]
fn test_clear_registry() {
    let mut registry = ModuleRegistry::<Factory>::new();

    registry.register("module1", "test", create_uppercase);
    assert_eq!(registry.count(), 1);

    registry.clear();
    assert_eq!(registry.count(), 0);
}

#[test]
fn test_get_module_names_alias() {
    let mut registry = ModuleRegistry::<Factory>::new();

    registry.register("test", "type", create_uppercase);

    // list_modules() and get_module_names() should return the same thing
    assert_eq!(registry.list_modules(), registry.get_module_names());
}

#[test]
fn created_instance_downcasts_to_the_registered_interface() {
    let mut registry = ModuleRegistry::<Factory>::new();
    registry.register("uppercase", "text_processor", create_uppercase);

    let any_module = registry.create_any("uppercase").unwrap();
    let module = any_module.downcast::<Box<dyn TextProcessor>>().unwrap();
    assert_eq!(module.name(), "uppercase");
    assert_eq!(module.module_type(), "text_processor");
    assert_eq!(module.process("shout"), "SHOUT");
}
