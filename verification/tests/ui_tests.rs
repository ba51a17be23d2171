use xmodem_rs::ui::{Action, PopUpManager};

#[test]
fn test_popup_manager_starts_empty() {
    let m = PopUpManager::default();
    assert_eq!(m.len(), 0);
}

#[test]
fn test_add_popup_queues_open_window() {
    let mut m = PopUpManager::default();
    m.add_popup("File Send success".to_string());
    m.add_popup("Error: Cancelled".to_string());
    assert_eq!(m.len(), 2);
    assert!(m.is_open(0));
    assert!(m.is_open(1));
    assert_eq!(m.title(0), "File Send success");
    assert_eq!(m.title(1), "Error: Cancelled");
}

#[test]
fn test_close_popup_keeps_title() {
    let mut m = PopUpManager::default();
    m.add_popup("one".to_string());
    m.add_popup("two".to_string());
    m.close(0);
    assert!(!m.is_open(0));
    assert!(m.is_open(1));
    assert_eq!(m.title(0), "one");
    assert_eq!(m.len(), 2);
}

#[test]
fn test_action_kinds_are_distinct() {
    let picks = [Action::Select, Action::Delete, Action::Keep];
    let mut selects = 0;
    let mut deletes = 0;
    let mut keeps = 0;
    for a in &picks {
        match a {
            Action::Select => selects += 1,
            Action::Delete => deletes += 1,
            Action::Keep => keeps += 1,
        }
    }
    assert_eq!((selects, deletes, keeps), (1, 1, 1));
}
