//! A generic trait with an unsafe method and string results, mocked
//! through dynamic string sources.

use mockgen::dispatch::{dispatch_instance_call, FallbackBranch, FallbackObject};
use mockgen::model::{MethodDecl, ReceiverKind, TraitDecl, TraitItemDecl};
use mockgen::registry::TraitRegistry;
use mockgen::tracker::{CallTracker, StringSource};

fn driver_decl() -> TraitDecl {
    TraitDecl {
        name: "DatabaseDriver".to_string(),
        is_public: true,
        generics: "<T, U>".to_string(),
        where_clause: String::new(),
        is_unsafe: false,
        items: vec![
            TraitItemDecl::Method(MethodDecl {
                name: "unescaped_query".to_string(),
                receiver: ReceiverKind::ByRef { lifetime: None },
                params: vec!["&str".to_string()],
                ret: Some("String".to_string()),
                is_unsafe: true,
            }),
            TraitItemDecl::Method(MethodDecl {
                name: "escaped_query".to_string(),
                receiver: ReceiverKind::ByRef { lifetime: None },
                params: vec!["&str".to_string(), "T".to_string()],
                ret: Some("U".to_string()),
                is_unsafe: false,
            }),
        ],
        supertraits: vec![],
    }
}

struct NoDriver;

impl FallbackObject<(&str,), String> for NoDriver {
    fn call_ref(&self, _args: (&str,)) -> String {
        String::new()
    }

    fn call_mut(&mut self, _args: (&str,)) -> String {
        String::new()
    }
}

impl FallbackObject<(&str, i32), String> for NoDriver {
    fn call_ref(&self, _args: (&str, i32)) -> String {
        String::new()
    }

    fn call_mut(&mut self, _args: (&str, i32)) -> String {
        String::new()
    }
}

#[test]
fn unsafe_test() {
    let mut registry = TraitRegistry::new();
    let plan = mockgen::synth::parse_trait(driver_decl(), &mut registry).unwrap();
    assert_eq!(plan.mock_type_name, "MockDatabaseDriver");
    assert!(plan.methods.instance_methods[0].is_unsafe);

    let method = CallTracker::<String, StringSource>::new()
        .called_once()
        .return_result_of(StringSource::new(String::new()));
    let mut slot = Some(method);
    let mut fallback: Option<NoDriver> = None;

    let r = dispatch_instance_call(
        &mut slot,
        &mut fallback,
        plan.methods.instance_methods[0].fallback,
        ("SELECT * FROM greetings",),
    );
    assert!(r == Ok(String::new()));
    assert_eq!(slot.unwrap().finalize(), Ok(()));
}

#[test]
fn generics_test() {
    let mut registry = TraitRegistry::new();
    let plan = mockgen::synth::parse_trait(driver_decl(), &mut registry).unwrap();
    assert_eq!(plan.methods.instance_methods[1].method_name, "escaped_query");

    let method = CallTracker::<String, StringSource>::new()
        .called_once()
        .return_result_of(StringSource::new(String::new()));
    let mut slot = Some(method);
    let mut fallback: Option<NoDriver> = None;

    let r = dispatch_instance_call(
        &mut slot,
        &mut fallback,
        plan.methods.instance_methods[1].fallback,
        ("SELECT * FROM greetings WHERE id = ?", 55i32),
    );
    assert!(r.is_ok());
    assert_eq!(slot.unwrap().finalize(), Ok(()));
}
