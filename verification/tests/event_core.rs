use openlaunch::event_core::{EventBatch, EventType};

// ── EventBatch tests ────────────────────────────────────────────

#[test]
fn event_batch_new_stores_fields() {
    let batch = EventBatch::new(vec![1, 2, 3], 10, 20);
    assert_eq!(batch.events, vec![1, 2, 3]);
    assert_eq!(batch.from_block, 10);
    assert_eq!(batch.to_block, 20);
}

#[test]
fn event_batch_is_empty_when_no_events() {
    let batch: EventBatch<u32> = EventBatch::new(vec![], 0, 0);
    assert!(batch.is_empty());
}

#[test]
fn event_batch_is_not_empty_when_has_events() {
    let batch = EventBatch::new(vec!["a"], 0, 0);
    assert!(!batch.is_empty());
}

#[test]
fn event_batch_len_returns_event_count() {
    let batch = EventBatch::new(vec![10, 20, 30, 40], 5, 8);
    assert_eq!(batch.len(), 4);
}

#[test]
fn event_batch_len_zero_for_empty() {
    let batch: EventBatch<String> = EventBatch::new(vec![], 1, 1);
    assert_eq!(batch.len(), 0);
}

// ── EventType::all tests ────────────────────────────────────────

#[test]
fn event_type_all_contains_every_variant_without_duplicates() {
    let all = EventType::all();
    assert_eq!(all.len(), 5);
    let mut seen = std::collections::HashSet::new();
    for et in all {
        assert!(seen.insert(et), "duplicate event type: {et:?}");
    }
    assert!(all.contains(&EventType::Ido));
    assert!(all.contains(&EventType::Token));
    assert!(all.contains(&EventType::Swap));
    assert!(all.contains(&EventType::Lp));
    assert!(all.contains(&EventType::Price));
}

// ── EventType::as_str / to_string tests ─────────────────────────

#[test]
fn event_type_as_str_and_display_match() {
    let expected = [
        (EventType::Ido, "ido"),
        (EventType::Token, "token"),
        (EventType::Swap, "swap"),
        (EventType::Lp, "lp"),
        (EventType::Price, "price"),
    ];
    for (et, label) in &expected {
        assert_eq!(et.as_str(), *label);
        assert_eq!(et.to_string(), *label);
    }
}

// ── EventType::dependencies tests ───────────────────────────────

#[test]
fn ido_has_no_dependencies() {
    assert!(EventType::Ido.dependencies().is_empty());
}

#[test]
fn token_depends_on_ido() {
    let deps = EventType::Token.dependencies();
    assert_eq!(deps, &[EventType::Ido]);
}

#[test]
fn swap_depends_on_ido() {
    let deps = EventType::Swap.dependencies();
    assert_eq!(deps, &[EventType::Ido]);
}

#[test]
fn lp_depends_on_ido() {
    let deps = EventType::Lp.dependencies();
    assert_eq!(deps, &[EventType::Ido]);
}

#[test]
fn price_depends_on_swap() {
    let deps = EventType::Price.dependencies();
    assert_eq!(deps, &[EventType::Swap]);
}

// ── Dependency graph invariants ─────────────────────────────────

#[test]
fn no_event_type_depends_on_itself() {
    for et in EventType::all() {
        assert!(
            !et.dependencies().contains(et),
            "{et:?} has a self-dependency"
        );
    }
}

#[test]
fn dependency_graph_has_no_cycles() {
    // Simple cycle detection: verify that following dependencies
    // from any node never revisits the starting node.
    for start in EventType::all() {
        let mut visited = std::collections::HashSet::new();
        let mut stack: Vec<&EventType> = vec![start];
        visited.insert(*start);
        while let Some(current) = stack.pop() {
            for dep in current.dependencies() {
                assert!(
                    dep != start,
                    "Cycle detected: {start:?} -> ... -> {dep:?}"
                );
                if visited.insert(*dep) {
                    stack.push(dep);
                }
            }
        }
    }
}

#[test]
fn dependency_depth_strictly_decreases_along_edges() {
    // Ido < Token, Swap, Lp < Price in the dependency order.
    let depth = |et: &EventType| match et {
        EventType::Ido => 0,
        EventType::Token | EventType::Swap | EventType::Lp => 1,
        EventType::Price => 2,
    };
    for et in EventType::all() {
        for dep in et.dependencies() {
            assert!(depth(dep) < depth(et));
        }
    }
}
