use crate::models::todo::Todo;
use crate::utils::text::{decimal_string, decimal_text, digit_char};
use vstd::prelude::*;
use vstd::string::*;

verus! {

/// The two texts of one deadline notification.
#[derive(Clone, Debug)]
pub struct Notification {
    pub title: String,
    pub body: String,
}

/// Whole minutes in an amount of seconds that is left; none where the
/// deadline is reached or passed.
pub open spec fn minutes_left(time_until_deadline: int) -> int {
    if time_until_deadline <= 0 {
        0
    } else {
        time_until_deadline / 60
    }
}

/// Whether a priority is the high one.
pub open spec fn is_high_priority(priority: Option<i32>) -> bool {
    priority == Some(1i32)
}

/// The words that stand for a priority in the body of a notification.
pub open spec fn priority_label(priority: Option<i32>) -> Seq<char> {
    if is_high_priority(priority) {
        "高优先级"@
    } else {
        "普通"@
    }
}

/// The title of a notification for an entry that is due in `minutes` whole
/// minutes.
pub open spec fn title_text(minutes: int) -> Seq<char> {
    if minutes == 0 {
        "你有一个即将到期的任务，请及时处理"@
    } else {
        "你有一个 "@ + decimal_text(minutes) + " 分钟内到期的任务，请及时处理"@
    }
}

/// The body of a notification: the text of the entry, its deadline as
/// written out in `when`, and its priority, one line each.
pub open spec fn body_text(text: Seq<char>, when: Seq<char>, priority: Option<i32>) -> Seq<char> {
    "目标任务："@ + text + "\n截止时间："@ + when + "\n优先级："@ + priority_label(priority)
}

/// A number below a hundred in two digits, with a zero in front where it is
/// below ten.
pub open spec fn two_digits(n: int) -> Seq<char>
    recommends
        0 <= n < 100,
{
    seq![digit_char(n / 10), digit_char(n % 10)]
}

/// A moment of the year as a notification writes it: month, day, hour and
/// minute in two digits each, every number followed by its mark.
pub open spec fn moment_text(month: int, day: int, hour: int, minute: int) -> Seq<char> {
    two_digits(month) + seq!['月'] + two_digits(day) + seq!['日', ' '] + two_digits(hour)
        + seq!['时'] + two_digits(minute) + seq!['分']
}

/// Whether some words are a moment of the year as a notification writes it:
/// a month from 1 to 12, a day from 1 to 31, an hour from 0 to 23 and a
/// minute from 0 to 59.
pub open spec fn is_moment_text(when: Seq<char>) -> bool {
    exists|month: int, day: int, hour: int, minute: int|
        {
            &&& 1 <= month <= 12
            &&& 1 <= day <= 31
            &&& 0 <= hour <= 23
            &&& 0 <= minute <= 59
            &&& when == #[trigger] moment_text(month, day, hour, minute)
        }
}

/// Writes a moment, given in seconds since the Unix epoch, as month, day,
/// hour and minute in the time zone of this machine.
///
/// The moment is made by `chrono::DateTime::from_timestamp`, moved to
/// `chrono::Local` by `DateTime::with_timezone` and written by
/// `DateTime::format`. The result is `None` where `from_timestamp` gives
/// none, that is beyond the years that chrono can hold. Which month, day,
/// hour and minute are written depends on the time zone, so nothing is
/// claimed of them. How they are written is claimed: `format` writes `%m`,
/// `%d`, `%H` and `%M` as the month, day, hour and minute of the local
/// date and time in two digits each, padded with a zero, and hands the rest
/// of the pattern on as it stands. The pattern is tied down because
/// `format` fails on a pattern that it cannot read.
#[verifier::external_body]
fn local_time_text(timestamp: i64, pattern: &str) -> (text: Option<String>)
    requires
        pattern@ == "%m月%d日 %H时%M分"@,
    ensures
        text matches Some(when) ==> is_moment_text(when@),
{
    match chrono::DateTime::from_timestamp(timestamp, 0) {
        Some(moment) => Some(moment.with_timezone(&chrono::Local).format(pattern).to_string()),
        None => None,
    }
}

/// Writes the current moment, read by `chrono::Utc::now`, as month, day,
/// hour and minute in the time zone of this machine, by `with_timezone` and
/// `format` as [`local_time_text`] does. Nothing is claimed of which moment
/// is written; how it is written is claimed as for [`local_time_text`].
#[verifier::external_body]
fn local_now_text(pattern: &str) -> (text: String)
    requires
        pattern@ == "%m月%d日 %H时%M分"@,
    ensures
        is_moment_text(text@),
{
    chrono::Utc::now().with_timezone(&chrono::Local).format(pattern).to_string()
}

/// The deadline as it is written in a notification: in local time, or the
/// current moment where the deadline is one that cannot be written. Either
/// way the words are a moment of the year, as [`moment_text`] writes it;
/// which moment depends on the time zone of this machine.
fn deadline_text(deadline: i64) -> (when: String)
    ensures
        is_moment_text(when@),
{
    match local_time_text(deadline, "%m月%d日 %H时%M分") {
        Some(when) => when,
        None => local_now_text("%m月%d日 %H时%M分"),
    }
}

/// The title of the notification for an entry with `time_until_deadline`
/// seconds left.
pub fn notification_title(time_until_deadline: i64) -> (title: String)
    ensures
        title@ == title_text(minutes_left(time_until_deadline as int)),
{
    let minutes: i64 = if time_until_deadline <= 0 {
        0
    } else {
        time_until_deadline / 60
    };
    if minutes == 0 {
        String::from_str("你有一个即将到期的任务，请及时处理")
    } else {
        let mut title = String::from_str("你有一个 ");
        let number = decimal_string(minutes);
        title.append(number.as_str());
        title.append(" 分钟内到期的任务，请及时处理");
        title
    }
}

/// The body of the notification for an entry with the given text and
/// priority, whose deadline is written out in `when`.
pub fn notification_body(text: &str, when: &str, priority: Option<i32>) -> (body: String)
    ensures
        body@ == body_text(text@, when@, priority),
{
    let high = match priority {
        Some(level) => level == 1,
        None => false,
    };
    let mut body = String::from_str("目标任务：");
    body.append(text);
    body.append("\n截止时间：");
    body.append(when);
    body.append("\n优先级：");
    if high {
        body.append("高优先级");
    } else {
        body.append("普通");
    }
    body
}

/// The notification for an entry with `time_until_deadline` seconds left,
/// whose deadline is written out in `when`.
pub fn notification_with_deadline_text(todo: &Todo, when: &str, time_until_deadline: i64) -> (note:
    Notification)
    ensures
        note.title@ == title_text(minutes_left(time_until_deadline as int)),
        note.body@ == body_text(todo.text@, when@, todo.priority),
{
    Notification {
        title: notification_title(time_until_deadline),
        body: notification_body(todo.text.as_str(), when, todo.priority),
    }
}

/// The moment that the body of a notification names as the deadline of an
/// entry, in seconds since the Unix epoch: the deadline, or the epoch for an
/// entry without one.
pub open spec fn deadline_to_write(deadline: Option<i64>) -> int {
    match deadline {
        Some(moment) => moment as int,
        None => 0,
    }
}

/// The moment that the body of a notification names as the deadline of an
/// entry: see [`deadline_to_write`].
pub fn notification_deadline(todo: &Todo) -> (moment: i64)
    ensures
        moment == deadline_to_write(todo.deadline),
{
    match todo.deadline {
        Some(deadline) => deadline,
        None => 0,
    }
}

/// The notification for an entry with `time_until_deadline` seconds left.
///
/// The deadline that is written is [`notification_deadline`] of the entry.
/// It is written out in the local time of this machine, so the body is
/// fixed only up to those words, which are a moment of the year as
/// [`moment_text`] writes it.
pub fn compose_notification(todo: &Todo, time_until_deadline: i64) -> (note: Notification)
    ensures
        note.title@ == title_text(minutes_left(time_until_deadline as int)),
        exists|when: Seq<char>|
            is_moment_text(when) && note.body@ == #[trigger] body_text(
                todo.text@,
                when,
                todo.priority,
            ),
{
    let when = deadline_text(notification_deadline(todo));
    notification_with_deadline_text(todo, when.as_str(), time_until_deadline)
}

} // verus!
