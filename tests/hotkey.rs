use freshtracks::hotkey::{
    format_duration, status_tooltip, stopped_body_exec, HotkeyAction, SyncCache,
};
use freshtracks::model::{Client, Project, TimeEntry};

fn entry(id: i32, project: Option<Project>, duration: Option<i32>) -> TimeEntry {
    TimeEntry {
        id,
        project_id: 3,
        project,
        description: None,
        started_at: "2024-01-01T09:00:00Z".to_string(),
        stopped_at: duration.map(|_| "2024-01-01T11:05:00Z".to_string()),
        resumed_at: None,
        duration_minutes: duration,
        is_billable: true,
    }
}

fn project(name: &str, client: Option<&str>) -> Project {
    Project {
        id: 3,
        name: name.to_string(),
        client: client.map(|c| Client { id: 1, name: c.to_string(), hourly_rate: None }),
    }
}

#[test]
fn duration_texts() {
    assert_eq!(format_duration(125), "2h 5m");
    assert_eq!(format_duration(45), "45m");
    assert_eq!(format_duration(60), "1h 0m");
    assert_eq!(format_duration(0), "0m");
}

#[test]
fn hotkey_stops_cached_timer() {
    let mut cache = SyncCache::new();
    cache.sync(Some(entry(7, Some(project("Website", None)), None)), Some(3));
    assert_eq!(cache.hotkey_action(), HotkeyAction::Stop(7));
    let fb = cache
        .finish_stop(Ok(entry(7, Some(project("Website", None)), Some(125))))
        .expect("feedback");
    assert!(cache.active.is_none());
    assert!(fb.toggled);
    assert!(fb.idle_icon);
    assert_eq!(fb.title, "Timer Stopped");
    assert_eq!(fb.body, "Website - 2h 5m");
    assert_eq!(fb.tooltip, "FreshTracks - No active timer");
}

#[test]
fn hotkey_without_context_shows_window() {
    let cache = SyncCache::new();
    assert_eq!(cache.hotkey_action(), HotkeyAction::ShowWindow);
}

#[test]
fn hotkey_starts_on_fallback_project() {
    let mut cache = SyncCache::new();
    cache.sync(None, Some(3));
    assert_eq!(cache.hotkey_action(), HotkeyAction::Start(3));
    let fb = cache
        .finish_start(Ok(entry(8, Some(project("Website", Some("Acme"))), None)))
        .expect("feedback");
    assert_eq!(cache.active.as_ref().map(|e| e.id), Some(8));
    assert_eq!(fb.title, "Timer Started");
    assert_eq!(fb.body, "Acme - Website");
    assert_eq!(fb.tooltip, "FreshTracks - Acme - Website (Running)");
    assert!(!fb.idle_icon);
    assert!(fb.toggled);
}

#[test]
fn failed_backend_call_changes_nothing() {
    let mut cache = SyncCache::new();
    cache.sync(Some(entry(7, None, None)), Some(3));
    assert!(cache.finish_stop(Err("API error 500".to_string())).is_none());
    assert_eq!(cache.active.as_ref().map(|e| e.id), Some(7));
    let mut idle = SyncCache::new();
    idle.sync(None, Some(3));
    assert!(idle.finish_start(Err("offline".to_string())).is_none());
    assert!(idle.active.is_none());
    assert_eq!(idle.first_project_id, Some(3));
}

#[test]
fn sync_keeps_known_project_when_none_given() {
    let mut cache = SyncCache::new();
    cache.sync(None, Some(4));
    cache.sync(None, None);
    assert_eq!(cache.first_project_id, Some(4));
}

#[test]
fn stop_body_without_project_or_duration() {
    assert_eq!(stopped_body_exec(&entry(1, None, None)), "Timer - ");
    assert_eq!(stopped_body_exec(&entry(1, Some(project("Docs", Some("Acme"))), Some(5))), "Docs - 5m");
}

#[test]
fn status_tooltips() {
    assert_eq!(status_tooltip(true, Some("Docs".to_string())), "FreshTracks - Docs (Running)");
    assert_eq!(status_tooltip(true, None), "FreshTracks - Timer Running");
    assert_eq!(status_tooltip(false, Some("Docs".to_string())), "FreshTracks - No active timer");
}
