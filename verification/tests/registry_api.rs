use llm_serving::registry::{Registry, RuntimeHandle};
use llm_serving::runtime::dummy_embedding::DummyEmbeddingRuntime;

#[test]
fn registry_lookup_reflects_inserts_and_removals() {
    let mut reg = Registry::new();
    assert!(reg.names().is_empty());
    let a = "alpha".to_string();
    let b = "beta".to_string();
    assert!(!reg.contains(&a));

    reg.insert(a.clone(), RuntimeHandle::Dummy);
    reg.insert(b.clone(), RuntimeHandle::DummyEmbedding { dimension: 8 });
    assert!(reg.contains(&a));
    assert!(reg.contains(&b));
    assert!(matches!(reg.lookup(&a), Some(RuntimeHandle::Dummy)));
    assert!(matches!(
        reg.lookup(&b),
        Some(RuntimeHandle::DummyEmbedding { dimension: 8 })
    ));
    assert_eq!(reg.names().len(), 2);

    // Inserting an existing name overwrites without duplicating it.
    reg.insert(a.clone(), RuntimeHandle::DummyImage);
    assert!(matches!(reg.lookup(&a), Some(RuntimeHandle::DummyImage)));
    assert_eq!(reg.names().iter().filter(|n| **n == a).count(), 1);

    // Removal is idempotent.
    reg.remove(&a);
    assert!(!reg.contains(&a));
    reg.remove(&a);
    assert!(!reg.contains(&a));
    assert!(reg.contains(&b));
    assert_eq!(reg.names(), vec!["beta".to_string()]);
}

#[test]
fn handles_duplicate_structurally() {
    let h = RuntimeHandle::External { config: "a,b,c".to_string() };
    assert!(matches!(h.duplicate(), RuntimeHandle::External { config } if config == "a,b,c"));
    let e = DummyEmbeddingRuntime::new(16);
    assert_eq!(e.dimension(), 16);
}
