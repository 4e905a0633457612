use codex_pulse::json::{Json, JsonNumber};
use codex_pulse::provider::{
    limit_label, order_limits, parse_limit, plan_display_name, read_account, read_usage,
    LimitReading, LiveError,
};

fn text(s: &str) -> Json {
    Json::Str(s.to_string())
}

fn uint(n: u64) -> Json {
    Json::Number(JsonNumber {
        text: n.to_string(),
        unsigned: Some(n),
        signed: i64::try_from(n).ok(),
    })
}

fn signed_int(n: i64) -> Json {
    Json::Number(JsonNumber {
        text: n.to_string(),
        unsigned: u64::try_from(n).ok(),
        signed: Some(n),
    })
}

fn float(text: &str) -> Json {
    Json::Number(JsonNumber {
        text: text.to_string(),
        unsigned: None,
        signed: None,
    })
}

fn object(entries: Vec<(&str, Json)>) -> Json {
    let mut entries: Vec<(String, Json)> =
        entries.into_iter().map(|(k, v)| (k.to_string(), v)).collect();
    entries.sort_by(|a, b| a.0.cmp(&b.0));
    Json::Object(entries)
}

#[test]
fn uses_codex_plan_display_names() {
    assert_eq!(plan_display_name("prolite"), "Pro Lite");
    assert_eq!(plan_display_name("PLUS"), "Plus");
    assert_eq!(plan_display_name("hc"), "Enterprise");
    assert_eq!(plan_display_name("future_plan"), "future_plan");
}

#[test]
fn plan_names_cover_every_known_plan() {
    let cases = [
        ("free", "Free"),
        ("Go", "Go"),
        ("pro", "Pro"),
        ("TEAM", "Team"),
        ("self_serve_business_usage_based", "Self Serve Business Usage Based"),
        ("business", "Business"),
        ("ent26", "Enterprise"),
        ("Enterprise", "Enterprise"),
        ("enterprise_cbp_usage_based", "Enterprise CBP Usage Based"),
        ("education", "Edu"),
        ("EDU", "Edu"),
        ("Mystery", "Mystery"),
        ("", ""),
    ];
    for (raw, name) in cases {
        assert_eq!(plan_display_name(raw), name);
    }
}

#[test]
fn limit_labels_name_the_window() {
    assert_eq!(limit_label(Some(300)), "5시간 한도");
    assert_eq!(limit_label(Some(10_080)), "주간 한도");
    assert_eq!(limit_label(Some(2_880)), "2일 한도");
    assert_eq!(limit_label(Some(43_200)), "30일 한도");
    assert_eq!(limit_label(Some(120)), "2시간 한도");
    assert_eq!(limit_label(Some(0)), "0일 한도");
    assert_eq!(limit_label(Some(90)), "Codex 사용 한도");
    assert_eq!(limit_label(None), "Codex 사용 한도");
}

#[test]
fn parses_a_limit() {
    let value = object(vec![
        ("usedPercent", float("42.5")),
        ("windowDurationMins", uint(300)),
        ("resetsAt", signed_int(1_700_000_000)),
    ]);
    let limit = parse_limit(Some(&value)).expect("a limit");
    assert_eq!(limit.label, "5시간 한도");
    assert_eq!(limit.used_percent.text, "42.5");
    assert_eq!(limit.window_duration_minutes, Some(300));
    assert_eq!(limit.resets_at.as_deref(), Some("2023-11-14T22:13:20+00:00"));
}

#[test]
fn limit_errors() {
    assert_eq!(parse_limit(None).unwrap_err(), LiveError::MissingLimit);
    let no_percent = object(vec![("windowDurationMins", uint(300))]);
    assert_eq!(parse_limit(Some(&no_percent)).unwrap_err(), LiveError::MissingPercent);
    let text_percent = object(vec![("usedPercent", text("40"))]);
    assert_eq!(parse_limit(Some(&text_percent)).unwrap_err(), LiveError::MissingPercent);
    assert_eq!(LiveError::MissingLimit.message(), "Codex 사용 한도 값이 없습니다.");
    assert_eq!(LiveError::MissingPercent.message(), "Codex 사용 한도 비율이 없습니다.");
}

fn reading(window: Option<u64>, resets: Option<&str>) -> LimitReading {
    LimitReading {
        label: limit_label(window),
        used_percent: JsonNumber {
            text: "1".to_string(),
            unsigned: Some(1),
            signed: Some(1),
        },
        window_duration_minutes: window,
        resets_at: resets.map(str::to_string),
    }
}

#[test]
fn limits_are_ordered_by_window_and_deduplicated() {
    let ordered = order_limits(Some(reading(Some(10_080), None)), Some(reading(Some(300), None)));
    assert_eq!(ordered.len(), 2);
    assert_eq!(ordered[0].window_duration_minutes, Some(300));
    assert_eq!(ordered[1].window_duration_minutes, Some(10_080));

    let unknown_first = order_limits(Some(reading(None, None)), Some(reading(Some(60), None)));
    assert_eq!(unknown_first[0].window_duration_minutes, Some(60));
    assert_eq!(unknown_first[1].window_duration_minutes, None);

    let same = order_limits(
        Some(reading(Some(300), Some("a"))),
        Some(reading(Some(300), Some("a"))),
    );
    assert_eq!(same.len(), 1);

    let different_reset = order_limits(
        Some(reading(Some(300), Some("a"))),
        Some(reading(Some(300), Some("b"))),
    );
    assert_eq!(different_reset.len(), 2);
    assert_eq!(different_reset[0].resets_at.as_deref(), Some("a"));

    assert!(order_limits(None, None).is_empty());
    assert_eq!(order_limits(None, Some(reading(Some(5), None))).len(), 1);
}

#[test]
fn account_checks() {
    let none = object(vec![("account", Json::Null)]);
    assert_eq!(read_account(&none).unwrap_err(), LiveError::NotSignedIn);
    assert_eq!(read_account(&object(vec![])).unwrap_err(), LiveError::NotSignedIn);
    let api_key = object(vec![("account", object(vec![("type", text("apiKey"))]))]);
    assert_eq!(read_account(&api_key).unwrap_err(), LiveError::NotChatGpt);
    let untyped = object(vec![("account", object(vec![]))]);
    assert_eq!(read_account(&untyped).unwrap_err(), LiveError::NotChatGpt);
    let chatgpt = object(vec![(
        "account",
        object(vec![
            ("type", text("chatgpt")),
            ("planType", text("PRO")),
            ("email", text("me@example.com")),
        ]),
    )]);
    let info = read_account(&chatgpt).expect("an account");
    assert_eq!(info.plan.as_deref(), Some("Pro"));
    assert_eq!(info.email.as_deref(), Some("me@example.com"));
    assert_eq!(
        LiveError::NotSignedIn.message(),
        "Codex에 로그인되어 있지 않아 데모 데이터를 표시합니다."
    );
    assert_eq!(
        LiveError::NotChatGpt.message(),
        "ChatGPT 구독 로그인이 아니어서 데모 데이터를 표시합니다."
    );
}

#[test]
fn reads_limits_and_usage() {
    let limits = object(vec![(
        "rateLimits",
        object(vec![
            (
                "primary",
                object(vec![("usedPercent", uint(30)), ("windowDurationMins", uint(10_080))]),
            ),
            (
                "secondary",
                object(vec![("usedPercent", uint(10)), ("windowDurationMins", uint(300))]),
            ),
        ]),
    )]);
    let usage = object(vec![
        (
            "summary",
            object(vec![("lifetimeTokens", uint(1000)), ("currentStreakDays", uint(3))]),
        ),
        (
            "dailyUsageBuckets",
            Json::Array(vec![
                object(vec![("startDate", text("2024-05-02")), ("tokens", uint(20))]),
                object(vec![("startDate", text("2024-05-01")), ("tokens", uint(10))]),
                object(vec![("startDate", text("2024-05-03"))]),
                object(vec![("startDate", text("2024-05-01")), ("tokens", uint(5))]),
            ]),
        ),
    ]);
    let report = read_usage(&limits, &usage).expect("a report");
    assert_eq!(report.primary_limit.window_duration_minutes, Some(300));
    assert_eq!(report.primary_limit.label, "5시간 한도");
    assert_eq!(
        report.weekly_limit.as_ref().and_then(|l| l.window_duration_minutes),
        Some(10_080)
    );
    assert_eq!(report.lifetime_tokens, Some(1000));
    assert_eq!(report.current_streak_days, Some(3));
    assert_eq!(report.peak_daily_tokens, None);
    let days: Vec<(&str, u64)> = report
        .daily_usage
        .iter()
        .map(|d| (d.date.as_str(), d.tokens))
        .collect();
    assert_eq!(days, vec![("2024-05-01", 10), ("2024-05-01", 5), ("2024-05-02", 20)]);
}

#[test]
fn falls_back_to_the_first_limit_bucket() {
    let limits = object(vec![
        ("rateLimits", Json::Null),
        (
            "rateLimitsByLimitId",
            object(vec![
                (
                    "a",
                    object(vec![(
                        "primary",
                        object(vec![("usedPercent", uint(1)), ("windowDurationMins", uint(60))]),
                    )]),
                ),
                (
                    "b",
                    object(vec![(
                        "primary",
                        object(vec![("usedPercent", uint(1)), ("windowDurationMins", uint(120))]),
                    )]),
                ),
            ]),
        ),
    ]);
    let report = read_usage(&limits, &Json::Null).expect("a report");
    assert_eq!(report.primary_limit.window_duration_minutes, Some(60));
    assert!(report.weekly_limit.is_none());
    assert!(report.daily_usage.is_empty());
}

#[test]
fn usage_errors() {
    let empty = object(vec![]);
    assert_eq!(read_usage(&empty, &empty).unwrap_err(), LiveError::EmptyRateLimits);
    let no_buckets = object(vec![("rateLimitsByLimitId", object(vec![]))]);
    assert_eq!(read_usage(&no_buckets, &empty).unwrap_err(), LiveError::EmptyRateLimits);
    let unreadable = object(vec![(
        "rateLimits",
        object(vec![
            ("primary", object(vec![("usedPercent", Json::Null)])),
            ("secondary", Json::Null),
        ]),
    )]);
    assert_eq!(read_usage(&unreadable, &empty).unwrap_err(), LiveError::MissingLimit);
    assert_eq!(
        LiveError::EmptyRateLimits.message(),
        "Codex 사용 한도 응답이 비어 있습니다."
    );
}
