use deskhive::models::todo::Todo;
use deskhive::notification::message::{
    compose_notification, notification_body, notification_deadline, notification_title,
    notification_with_deadline_text,
};
use deskhive::notification::{
    DueNotice, NotificationManager, SCAN_PERIOD_SECONDS, STALE_AFTER_SECONDS, TOLERANCE_SECONDS,
};

fn todo(id: &str, deadline: Option<i64>) -> Todo {
    Todo {
        id: id.to_string(),
        text: format!("task {}", id),
        completed: false,
        created_at: 1_700_000_000,
        completed_at: None,
        deadline,
        order: 0,
        group_id: "default".to_string(),
        priority: None,
    }
}

const NOW: i64 = 1_750_000_000;

#[test]
fn todo_exactly_on_target_fires_once() {
    let mut manager = NotificationManager::new();
    let todos = vec![todo("a", Some(NOW + 30 * 60))];
    let first = manager.scan_at(true, 30, &todos, NOW);
    assert_eq!(first, vec![DueNotice { index: 0, time_until_deadline: 1800 }]);
    assert!(manager.is_notified("a"));
    let second = manager.scan_at(true, 30, &todos, NOW);
    assert_eq!(second, vec![]);
    assert!(manager.is_notified("a"));
}

#[test]
fn stale_mark_is_removed_by_one_scan() {
    let mut manager = NotificationManager::new();
    let deadline = NOW + 600;
    let todos = vec![todo("a", Some(deadline))];
    assert_eq!(manager.scan_at(true, 10, &todos, NOW).len(), 1);
    assert!(manager.is_notified("a"));
    // exactly one hour late: the mark stays
    assert_eq!(manager.scan_at(true, 10, &todos, deadline + 3600), vec![]);
    assert!(manager.is_notified("a"));
    // one second more: the mark goes
    assert_eq!(manager.scan_at(true, 10, &todos, deadline + 3601), vec![]);
    assert!(!manager.is_notified("a"));
}

#[test]
fn disabled_notifications_fire_nothing() {
    let mut manager = NotificationManager::new();
    let todos = vec![
        todo("a", Some(NOW + 1800)),
        todo("b", Some(NOW + 1)),
        todo("c", Some(NOW - 10_000)),
        todo("d", None),
    ];
    assert_eq!(manager.scan_at(false, 30, &todos, NOW), vec![]);
    assert!(!manager.is_notified("a"));
    // marks are left alone too, also those of stale entries
    assert_eq!(manager.scan_at(true, 30, &todos, NOW).len(), 1);
    assert!(manager.is_notified("a"));
    assert_eq!(manager.scan_at(false, 30, &todos, NOW + 100_000), vec![]);
    assert!(manager.is_notified("a"));
}

#[test]
fn tolerance_is_thirty_seconds_on_either_side() {
    let lead = 5;
    let threshold = 300;
    for (offset, fires) in [(-31, false), (-30, true), (-1, true), (0, true), (30, true), (31, false)] {
        let mut manager = NotificationManager::new();
        let todos = vec![todo("a", Some(NOW + threshold + offset))];
        let due = manager.scan_at(true, lead, &todos, NOW);
        assert_eq!(due.len() == 1, fires, "offset {}", offset);
        assert_eq!(manager.is_notified("a"), fires);
        if fires {
            assert_eq!(due[0].time_until_deadline, threshold + offset);
        }
    }
}

#[test]
fn deadline_that_is_reached_does_not_fire() {
    // with no lead time the window is [-30, 30], but the deadline must be ahead
    for (remaining, fires) in [(-30, false), (-1, false), (0, false), (1, true), (30, true), (31, false)] {
        let mut manager = NotificationManager::new();
        let todos = vec![todo("a", Some(NOW + remaining))];
        assert_eq!(manager.scan_at(true, 0, &todos, NOW).len() == 1, fires, "remaining {}", remaining);
    }
}

#[test]
fn completed_and_undated_todos_are_skipped() {
    let mut manager = NotificationManager::new();
    let mut done = todo("done", Some(NOW + 1800));
    done.completed = true;
    let todos = vec![done, todo("undated", None), todo("due", Some(NOW + 1800))];
    let due = manager.scan_at(true, 30, &todos, NOW);
    assert_eq!(due, vec![DueNotice { index: 2, time_until_deadline: 1800 }]);
    assert!(!manager.is_notified("done"));
    assert!(!manager.is_notified("undated"));
    assert!(manager.is_notified("due"));
}

#[test]
fn completed_todo_keeps_its_stale_mark() {
    let mut manager = NotificationManager::new();
    let mut todos = vec![todo("a", Some(NOW + 1800))];
    assert_eq!(manager.scan_at(true, 30, &todos, NOW).len(), 1);
    todos[0].completed = true;
    assert_eq!(manager.scan_at(true, 30, &todos, NOW + 1800 + 3601), vec![]);
    assert!(manager.is_notified("a"));
}

#[test]
fn notices_come_in_the_order_of_the_list() {
    let mut manager = NotificationManager::new();
    let todos = vec![
        todo("a", Some(NOW + 1790)),
        todo("b", Some(NOW + 5000)),
        todo("c", Some(NOW + 1830)),
        todo("d", Some(NOW + 1770)),
    ];
    let due = manager.scan_at(true, 30, &todos, NOW);
    assert_eq!(
        due,
        vec![
            DueNotice { index: 0, time_until_deadline: 1790 },
            DueNotice { index: 2, time_until_deadline: 1830 },
            DueNotice { index: 3, time_until_deadline: 1770 },
        ]
    );
    assert!(!manager.is_notified("b"));
}

#[test]
fn entries_that_share_an_identifier_share_the_mark() {
    let mut manager = NotificationManager::new();
    let todos = vec![todo("x", Some(NOW + 1800)), todo("x", Some(NOW + 1810))];
    let due = manager.scan_at(true, 30, &todos, NOW);
    assert_eq!(due, vec![DueNotice { index: 0, time_until_deadline: 1800 }]);
    // a stale entry after a due one with the same identifier takes the mark away again
    let mut manager = NotificationManager::new();
    let todos = vec![todo("x", Some(NOW + 1800)), todo("x", Some(NOW - 4000))];
    assert_eq!(manager.scan_at(true, 30, &todos, NOW).len(), 1);
    assert!(!manager.is_notified("x"));
    assert_eq!(manager.scan_at(true, 30, &todos, NOW).len(), 1);
}

#[test]
fn extreme_times_do_not_overflow() {
    let mut manager = NotificationManager::new();
    let todos = vec![todo("far", Some(i64::MAX)), todo("past", Some(i64::MIN))];
    assert_eq!(manager.scan_at(true, u32::MAX, &todos, i64::MIN), vec![]);
    assert_eq!(manager.scan_at(true, u32::MAX, &todos, i64::MAX), vec![]);
    let lead_seconds = u32::MAX as i64 * 60;
    let todos = vec![todo("a", Some(lead_seconds + 30))];
    assert_eq!(
        manager.scan_at(true, u32::MAX, &todos, 0),
        vec![DueNotice { index: 0, time_until_deadline: lead_seconds + 30 }]
    );
}

#[test]
fn new_manager_has_no_marks() {
    let manager = NotificationManager::new();
    assert!(!manager.is_notified("a"));
    assert!(!manager.is_notified(""));
}

#[test]
fn scan_by_the_clock_fires_for_a_deadline_one_lead_time_ahead() {
    let mut manager = NotificationManager::new();
    let now = chrono::Utc::now().timestamp();
    let todos = vec![todo("soon", Some(now + 600)), todo("later", Some(now + 86_400))];
    let due = manager.check_and_notify(true, 10, &todos);
    assert_eq!(due.len(), 1);
    assert_eq!(due[0].index, 0);
    assert!((570..=630).contains(&due[0].time_until_deadline));
    assert!(manager.is_notified("soon"));
    assert!(!manager.is_notified("later"));
    assert_eq!(manager.check_and_notify(true, 10, &todos), vec![]);
    assert_eq!(manager.check_and_notify(false, 10, &todos), vec![]);
}

#[test]
fn title_varies_by_the_minutes_left() {
    assert_eq!(notification_title(1800), "你有一个 30 分钟内到期的任务，请及时处理");
    assert_eq!(notification_title(1799), "你有一个 29 分钟内到期的任务，请及时处理");
    assert_eq!(notification_title(60), "你有一个 1 分钟内到期的任务，请及时处理");
    assert_eq!(notification_title(59), "你有一个即将到期的任务，请及时处理");
    assert_eq!(notification_title(0), "你有一个即将到期的任务，请及时处理");
    assert_eq!(notification_title(-500), "你有一个即将到期的任务，请及时处理");
    assert_eq!(notification_title(i64::MIN), "你有一个即将到期的任务，请及时处理");
    assert_eq!(
        notification_title(i64::MAX),
        "你有一个 153722867280912930 分钟内到期的任务，请及时处理"
    );
}

#[test]
fn body_names_task_deadline_and_priority() {
    assert_eq!(
        notification_body("写周报", "08月28日 17时30分", Some(1)),
        "目标任务：写周报\n截止时间：08月28日 17时30分\n优先级：高优先级"
    );
    assert_eq!(
        notification_body("写周报", "08月28日 17时30分", None),
        "目标任务：写周报\n截止时间：08月28日 17时30分\n优先级：普通"
    );
    assert_eq!(notification_body("", "", Some(2)), "目标任务：\n截止时间：\n优先级：普通");
    assert_eq!(notification_body("", "", Some(0)), "目标任务：\n截止时间：\n优先级：普通");
}

#[test]
fn notification_joins_title_and_body() {
    let mut entry = todo("a", Some(NOW + 1800));
    entry.text = "交作业".to_string();
    entry.priority = Some(1);
    let note = notification_with_deadline_text(&entry, "06月15日 15时36分", 1800);
    assert_eq!(note.title, "你有一个 30 分钟内到期的任务，请及时处理");
    assert_eq!(note.body, "目标任务：交作业\n截止时间：06月15日 15时36分\n优先级：高优先级");
}

#[test]
fn composed_notification_writes_the_deadline_in_local_time() {
    let mut entry = todo("a", Some(NOW));
    entry.text = "交作业".to_string();
    let note = compose_notification(&entry, 125);
    assert_eq!(note.title, "你有一个 2 分钟内到期的任务，请及时处理");
    let when = chrono::DateTime::from_timestamp(NOW, 0)
        .expect("in range")
        .with_timezone(&chrono::Local)
        .format("%m月%d日 %H时%M分")
        .to_string();
    assert_eq!(note.body, format!("目标任务：交作业\n截止时间：{}\n优先级：普通", when));
    assert_eq!(when.chars().count(), 13);
}

#[test]
fn composed_notification_copes_with_a_deadline_beyond_the_calendar() {
    let entry = todo("a", Some(i64::MAX));
    let note = compose_notification(&entry, 10);
    assert!(note.body.starts_with("目标任务：task a\n截止时间："));
    assert!(note.body.ends_with("\n优先级：普通"));
    let undated = todo("b", None);
    let note = compose_notification(&undated, 10);
    let epoch = chrono::DateTime::from_timestamp(0, 0)
        .expect("in range")
        .with_timezone(&chrono::Local)
        .format("%m月%d日 %H时%M分")
        .to_string();
    assert_eq!(note.body, format!("目标任务：task b\n截止时间：{}\n优先级：普通", epoch));
}

#[test]
fn tolerance_covers_half_the_scan_period() {
    assert_eq!(TOLERANCE_SECONDS, 30);
    assert_eq!(SCAN_PERIOD_SECONDS, 60);
    assert_eq!(STALE_AFTER_SECONDS, 3600);
    assert!(2 * TOLERANCE_SECONDS >= SCAN_PERIOD_SECONDS);
}

#[test]
fn scans_once_a_minute_do_not_miss_a_deadline() {
    let deadline = NOW + 7200;
    let todos = vec![todo("a", Some(deadline))];
    for phase in 0..SCAN_PERIOD_SECONDS {
        let mut manager = NotificationManager::new();
        let mut fired = Vec::new();
        let mut now = NOW + phase;
        while now < deadline + 2 * STALE_AFTER_SECONDS {
            for notice in manager.scan_at(true, 15, &todos, now) {
                fired.push(notice.time_until_deadline);
            }
            now += SCAN_PERIOD_SECONDS;
        }
        assert_eq!(fired.len(), 1, "phase {}", phase);
        assert!((900 - 30..=900 + 30).contains(&fired[0]), "phase {}", phase);
        assert!(!manager.is_notified("a"));
    }
}

fn is_two_digits_up_to(text: &[char], low: u32, high: u32) -> bool {
    match (text[0].to_digit(10), text[1].to_digit(10)) {
        (Some(tens), Some(ones)) => (low..=high).contains(&(tens * 10 + ones)),
        _ => false,
    }
}

fn is_moment(when: &str) -> bool {
    let chars: Vec<char> = when.chars().collect();
    chars.len() == 13
        && is_two_digits_up_to(&chars[0..2], 1, 12)
        && chars[2] == '月'
        && is_two_digits_up_to(&chars[3..5], 1, 31)
        && chars[5] == '日'
        && chars[6] == ' '
        && is_two_digits_up_to(&chars[7..9], 0, 23)
        && chars[9] == '时'
        && is_two_digits_up_to(&chars[10..12], 0, 59)
        && chars[12] == '分'
}

#[test]
fn deadline_is_written_as_month_day_hour_and_minute() {
    for deadline in [0, NOW, 951_782_400, 1_709_251_199, -1, i64::MAX, i64::MIN] {
        let entry = todo("a", Some(deadline));
        let note = compose_notification(&entry, 10);
        let when = note
            .body
            .strip_prefix("目标任务：task a\n截止时间：")
            .and_then(|rest| rest.strip_suffix("\n优先级：普通"))
            .expect("body around the deadline");
        assert!(is_moment(when), "{} -> {:?}", deadline, when);
    }
}

#[test]
fn notification_names_the_deadline_or_the_epoch() {
    assert_eq!(notification_deadline(&todo("a", Some(NOW))), NOW);
    assert_eq!(notification_deadline(&todo("a", Some(-5))), -5);
    assert_eq!(notification_deadline(&todo("a", Some(i64::MAX))), i64::MAX);
    assert_eq!(notification_deadline(&todo("a", None)), 0);
}
