use aether::{BrowserError, BrowserManager};

#[test]
fn new_manager_is_empty() {
    let m = BrowserManager::new();
    assert_eq!(m.tab_count(), 0);
    assert!(m.get_active_tab().is_none());
    assert!(m.get_tabs().is_empty());
    assert!(!m.has_running_process());
}

#[test]
fn create_tab_defaults() {
    let mut m = BrowserManager::new();
    let tab = m.create_tab(None).unwrap();
    assert_eq!(tab.url, "about:blank");
    assert_eq!(tab.title, "New Tab");
    assert_eq!(tab.favicon, None);
    assert_eq!(tab.position, 0);
    assert!(tab.is_active);
    assert_eq!(m.tab_count(), 1);
}

#[test]
fn create_tab_uses_given_url() {
    let mut m = BrowserManager::new();
    let tab = m.create_tab(Some("https://example.com".to_string())).unwrap();
    assert_eq!(tab.url, "https://example.com");
}

#[test]
fn created_ids_are_distinct_and_uuid_shaped() {
    let mut m = BrowserManager::new();
    let a = m.create_tab(None).unwrap();
    let b = m.create_tab(None).unwrap();
    assert_ne!(a.id, b.id);
    assert_eq!(a.id.len(), 36);
    assert_eq!(b.id.len(), 36);
}

#[test]
fn second_create_deactivates_first() {
    let mut m = BrowserManager::new();
    let a = m.create_tab(None).unwrap();
    let b = m.create_tab(None).unwrap();
    assert_eq!(b.position, 1);
    assert!(b.is_active);
    let tabs = m.get_tabs();
    let a_now = tabs.iter().find(|t| t.id == a.id).unwrap();
    assert!(!a_now.is_active);
}

#[test]
fn scenario_create_close_reassigns_active() {
    let mut m = BrowserManager::new();
    let a = m.create_tab(None).unwrap();
    assert_eq!(a.position, 0);
    assert!(a.is_active);
    let b = m.create_tab(None).unwrap();
    assert_eq!(b.position, 1);
    assert!(b.is_active);
    assert_eq!(m.get_active_tab().unwrap().id, b.id);
    m.close_tab(&b.id).unwrap();
    let active = m.get_active_tab().unwrap();
    assert_eq!(active.id, a.id);
    assert!(active.is_active);
}

#[test]
fn close_active_picks_lowest_position() {
    let mut m = BrowserManager::new();
    let a = m.create_tab(None).unwrap();
    let _b = m.create_tab(None).unwrap();
    let c = m.create_tab(None).unwrap();
    // c (position 2) is active; closing it hands the focus to a (position 0).
    m.close_tab(&c.id).unwrap();
    assert_eq!(m.get_active_tab().unwrap().id, a.id);
}

#[test]
fn close_active_breaks_position_ties_by_insertion_order() {
    let mut m = BrowserManager::new();
    let a = m.create_tab(None).unwrap();
    let b = m.create_tab(None).unwrap();
    let _c = m.create_tab(None).unwrap();
    m.close_tab(&a.id).unwrap();
    // Two tabs now share position 2; b keeps position 1.
    let d = m.create_tab(None).unwrap();
    assert_eq!(d.position, 2);
    m.switch_tab(&b.id).unwrap();
    m.close_tab(&b.id).unwrap();
    // c and d both remain with position 2; the earlier one wins the tie.
    let active = m.get_active_tab().unwrap();
    assert_eq!(active.position, 2);
    assert_ne!(active.id, d.id);
}

#[test]
fn close_last_tab_leaves_no_active() {
    let mut m = BrowserManager::new();
    let a = m.create_tab(None).unwrap();
    m.close_tab(&a.id).unwrap();
    assert_eq!(m.tab_count(), 0);
    assert!(m.get_active_tab().is_none());
}

#[test]
fn close_inactive_keeps_active() {
    let mut m = BrowserManager::new();
    let a = m.create_tab(None).unwrap();
    let b = m.create_tab(None).unwrap();
    m.close_tab(&a.id).unwrap();
    assert_eq!(m.get_active_tab().unwrap().id, b.id);
}

#[test]
fn close_unknown_reports_not_found_and_changes_nothing() {
    let mut m = BrowserManager::new();
    let a = m.create_tab(None).unwrap();
    let before = m.get_tabs();
    let err = m.close_tab("nonexistent").unwrap_err();
    assert!(matches!(err, BrowserError::NotFound(_)));
    assert_eq!(err.message(), "Not found: Tab nonexistent not found");
    assert_eq!(m.get_tabs(), before);
    assert_eq!(m.get_active_tab().unwrap().id, a.id);
}

#[test]
fn switch_activates_target_and_deactivates_rest() {
    let mut m = BrowserManager::new();
    let a = m.create_tab(None).unwrap();
    let b = m.create_tab(None).unwrap();
    let switched = m.switch_tab(&a.id).unwrap();
    assert_eq!(switched.id, a.id);
    assert!(switched.is_active);
    assert_eq!(m.get_active_tab().unwrap().id, a.id);
    let tabs = m.get_tabs();
    let b_now = tabs.iter().find(|t| t.id == b.id).unwrap();
    assert!(!b_now.is_active);
}

#[test]
fn switch_unknown_keeps_previous_active() {
    let mut m = BrowserManager::new();
    let _a = m.create_tab(None).unwrap();
    let b = m.create_tab(None).unwrap();
    let err = m.switch_tab("nonexistent").unwrap_err();
    assert!(matches!(err, BrowserError::NotFound(_)));
    let active = m.get_active_tab().unwrap();
    assert_eq!(active.id, b.id);
    assert!(active.is_active);
}

#[test]
fn navigate_updates_only_url() {
    let mut m = BrowserManager::new();
    let a = m.create_tab(None).unwrap();
    let b = m.create_tab(None).unwrap();
    let moved = m.navigate_tab(&a.id, "https://example.com").unwrap();
    assert_eq!(moved.id, a.id);
    assert_eq!(moved.url, "https://example.com");
    assert_eq!(moved.title, a.title);
    assert_eq!(moved.favicon, a.favicon);
    assert_eq!(moved.position, a.position);
    assert_eq!(moved.is_active, false);
    assert_eq!(m.get_active_tab().unwrap().id, b.id);
}

#[test]
fn navigate_unknown_reports_not_found() {
    let mut m = BrowserManager::new();
    let err = m.navigate_tab("ghost", "https://example.com").unwrap_err();
    assert!(matches!(err, BrowserError::NotFound(_)));
}

#[test]
fn tabs_listed_sorted_by_position() {
    let mut m = BrowserManager::new();
    let a = m.create_tab(None).unwrap();
    let _b = m.create_tab(None).unwrap();
    let _c = m.create_tab(None).unwrap();
    // Closing the first tab and creating another repeats position 2.
    m.close_tab(&a.id).unwrap();
    let _d = m.create_tab(None).unwrap();
    let tabs = m.get_tabs();
    assert_eq!(tabs.len(), 3);
    for w in tabs.windows(2) {
        assert!(w[0].position <= w[1].position);
    }
    let positions: Vec<i32> = tabs.iter().map(|t| t.position).collect();
    assert_eq!(positions, vec![1, 2, 2]);
}

#[test]
fn at_most_one_tab_active_through_operations() {
    let mut m = BrowserManager::new();
    let a = m.create_tab(None).unwrap();
    let b = m.create_tab(None).unwrap();
    let _c = m.create_tab(None).unwrap();
    m.switch_tab(&a.id).unwrap();
    m.close_tab(&a.id).unwrap();
    m.navigate_tab(&b.id, "https://example.com").unwrap();
    let active_count = m.get_tabs().iter().filter(|t| t.is_active).count();
    assert_eq!(active_count, 1);
}
