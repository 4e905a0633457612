use codex_pulse::alerts::{
    reset_hour_alert, AlertInput, AlertTracker, RemainingLevel, WeeklyLimitState,
};

const NOW: i64 = 1_704_069_000; // 2024-01-01T00:30:00Z

fn input(connection: &str, level: RemainingLevel, reset: Option<&str>) -> AlertInput {
    AlertInput {
        connection_state: connection.to_string(),
        weekly_limit: Some(WeeklyLimitState {
            remaining: level,
            resets_at: Some("2024-01-07T00:00:00+00:00".to_string()),
        }),
        primary_resets_at: reset.map(str::to_string),
    }
}

#[test]
fn weekly_alert_tiers() {
    let tracker = AlertTracker::new(None, Vec::new());
    let critical = tracker.evaluate(&input("connected", RemainingLevel::AtMostTenPercent, None), NOW, 0);
    assert_eq!(critical.len(), 1);
    assert_eq!(critical[0].key, "weekly-10:2024-01-07T00:00:00+00:00");
    assert_eq!(critical[0].body, "Codex 주간 한도가 10% 이하로 남았습니다.");
    let low = tracker.evaluate(&input("connected", RemainingLevel::AtMostTwentyPercent, None), NOW, 0);
    assert_eq!(low[0].key, "weekly-20:2024-01-07T00:00:00+00:00");
    assert_eq!(low[0].body, "Codex 주간 한도가 20% 이하로 남았습니다.");
    assert!(tracker
        .evaluate(&input("connected", RemainingLevel::Above, None), NOW, 0)
        .is_empty());
}

#[test]
fn no_alerts_unless_connected() {
    let tracker = AlertTracker::new(None, Vec::new());
    let alerts = tracker.evaluate(
        &input("fallback", RemainingLevel::AtMostTenPercent, Some("2024-01-01T01:00:00+00:00")),
        NOW,
        0,
    );
    assert!(alerts.is_empty());
}

#[test]
fn reset_alert_within_the_hour() {
    let tracker = AlertTracker::new(None, Vec::new());
    let due = tracker.evaluate(
        &input("connected", RemainingLevel::Above, Some("2024-01-01T01:00:00+00:00")),
        NOW,
        0,
    );
    assert_eq!(due.len(), 1);
    assert_eq!(due[0].key, "reset-hour:2024-01-01T01:00:00+00:00");
    assert_eq!(due[0].body, "Codex 사용 한도 초기화까지 1시간 이내입니다.");
    // Exactly one hour ahead still counts; a second more does not.
    let exactly = tracker.evaluate(
        &input("connected", RemainingLevel::Above, Some("2024-01-01T01:30:00+00:00")),
        NOW,
        0,
    );
    assert_eq!(exactly.len(), 1);
    let later = tracker.evaluate(
        &input("connected", RemainingLevel::Above, Some("2024-01-01T01:30:01+00:00")),
        NOW,
        0,
    );
    assert!(later.is_empty());
    // A reset in the past or an unreadable time gives nothing.
    let past = tracker.evaluate(
        &input("connected", RemainingLevel::Above, Some("2024-01-01T00:00:00+00:00")),
        NOW,
        0,
    );
    assert!(past.is_empty());
    let garbage = tracker.evaluate(&input("connected", RemainingLevel::Above, Some("soon")), NOW, 0);
    assert!(garbage.is_empty());
}

#[test]
fn each_alert_is_sent_once() {
    let mut tracker = AlertTracker::new(None, Vec::new());
    let snapshot = input(
        "connected",
        RemainingLevel::AtMostTenPercent,
        Some("2024-01-01T01:00:00+00:00"),
    );
    let due = tracker.evaluate(&snapshot, NOW, 0);
    assert_eq!(due.len(), 2);
    assert!(due[0].key.starts_with("weekly-10:"));
    assert!(due[1].key.starts_with("reset-hour:"));
    tracker.record_sent(due[0].key.clone());
    let again = tracker.evaluate(&snapshot, NOW, 0);
    assert_eq!(again.len(), 1);
    assert!(again[0].key.starts_with("reset-hour:"));
    tracker.record_sent(again[0].key.clone());
    tracker.record_sent(again[0].key.clone());
    assert!(tracker.evaluate(&snapshot, NOW, 0).is_empty());
    assert_eq!(tracker.sent().len(), 2);
    assert!(tracker.has_sent("reset-hour:2024-01-01T01:00:00+00:00"));
}

#[test]
fn loaded_history_is_remembered_once() {
    let tracker = AlertTracker::new(
        Some(std::path::PathBuf::from("alert-history.json")),
        vec![
            "weekly-10:2024-01-07T00:00:00+00:00".to_string(),
            "weekly-10:2024-01-07T00:00:00+00:00".to_string(),
        ],
    );
    assert_eq!(tracker.sent().len(), 1);
    assert!(tracker.history_path_ref().is_some());
    let due = tracker.evaluate(&input("connected", RemainingLevel::AtMostTenPercent, None), NOW, 0);
    assert!(due.is_empty());
}

#[test]
fn reset_hour_alert_bounds() {
    let reset_at = "2024-01-01T01:00:00+00:00".to_string();
    assert!(reset_hour_alert(&reset_at, None).is_none());
    assert!(reset_hour_alert(&reset_at, Some(0)).is_none());
    assert!(reset_hour_alert(&reset_at, Some(-5)).is_none());
    assert!(reset_hour_alert(&reset_at, Some(3_601)).is_none());
    let alert = reset_hour_alert(&reset_at, Some(1)).unwrap();
    assert_eq!(alert.key, "reset-hour:2024-01-01T01:00:00+00:00");
    assert_eq!(alert.body, "Codex 사용 한도 초기화까지 1시간 이내입니다.");
    let alert = reset_hour_alert(&reset_at, Some(3_600)).unwrap();
    assert_eq!(alert.key, "reset-hour:2024-01-01T01:00:00+00:00");
}
