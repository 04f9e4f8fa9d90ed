use vstd::prelude::*;
use crate::clock::{
    checked_days_before, day_month_and_day, day_text, day_to_text, days_before, local_day_of_millis,
    chrono_day_in_range, first_chrono_day, last_chrono_day, local_day_fits, local_hour_minute_text, millis_in_range, month_and_day, parse_ymd_day,
    utc_day_of_millis, ymd_day_number,
};
use crate::numbers::{int_text, parse_int, parse_u32, push_int_text};
use crate::row::{cell_at, is_integer_or_null, is_text_or_null, typed_int, typed_text, CellView, Row};
use crate::text::{all_white, append_str, chars_of, is_blank, push_char, same_text, string_of};

verus! {

/// When a task reminds: `offset_days` days before its target day, at `time`
/// (`HH:MM`), and with `repeat` on every day from then until the target day.
#[derive(Debug, Clone, PartialEq)]
pub struct TaskReminderConfig {
    pub offset_days: i64,
    pub time: String,
    pub repeat: bool,
}

/// The fields a stored reminder object holds, each possibly absent.
#[derive(Debug, Clone, PartialEq)]
pub struct RawReminder {
    pub offset_days: Option<i64>,
    pub time: Option<String>,
    pub repeat: Option<bool>,
}

/// Reads a task's stored reminder. `decoded` is the reminder object that the
/// stored text decodes to, if it decodes. A blank text means no reminder; so
/// does an object without an offset or a time. A missing `repeat` is off.
pub fn parse_reminder(raw: &str, decoded: Option<RawReminder>) -> (r: Option<TaskReminderConfig>)
    ensures
        all_white(raw@) ==> r is None,
        !all_white(raw@) ==> match decoded {
            Some(RawReminder { offset_days: Some(o), time: Some(t), repeat }) => r matches Some(
                c,
            ) && c.offset_days == o && c.time@ == t@ && c.repeat == (repeat == Some(true)),
            _ => r is None,
        },
{
    if is_blank(raw) {
        return None;
    }
    match decoded {
        Some(RawReminder { offset_days: Some(o), time: Some(t), repeat }) => Some(
            TaskReminderConfig {
                offset_days: o,
                time: t,
                repeat: match repeat {
                    Some(b) => b,
                    None => false,
                },
            },
        ),
        _ => None,
    }
}

// ---------------------------------------------------------------------------
// The target day of a task
// ---------------------------------------------------------------------------

/// The day a task is due: the local day of its deadline, else its scheduled
/// day, else the local day it was created, else today.
pub open spec fn target_day(
    deadline_day: Option<i32>,
    scheduled_day: Option<i32>,
    created_day: Option<i32>,
    today: i32,
) -> i32 {
    match deadline_day {
        Some(d) => d,
        None => match scheduled_day {
            Some(d) => d,
            None => match created_day {
                Some(d) => d,
                None => today,
            },
        },
    }
}

/// The scheduled day of a task: its `%Y-%m-%d` date, if it has one that reads.
pub open spec fn scheduled_day_of(scheduled_date: Option<Seq<char>>) -> Option<i32> {
    match scheduled_date {
        Some(s) => ymd_day_number(s),
        None => None,
    }
}

/// The target day of a task, given the local days of its deadline and its
/// creation (which depend on the machine's time zone) and today.
pub fn target_day_of(
    deadline_day: Option<i32>,
    scheduled_date: Option<&str>,
    created_day: Option<i32>,
    today: i32,
) -> (d: i32)
    ensures
        d == target_day(
            deadline_day,
            scheduled_day_of(scheduled_date.deep_view()),
            created_day,
            today,
        ),
{
    if let Some(d) = deadline_day {
        return d;
    }
    if let Some(sd) = scheduled_date {
        if let Some(d) = parse_ymd_day(sd) {
            return d;
        }
    }
    match created_day {
        Some(d) => d,
        None => today,
    }
}

/// `get_task_target_date`: reads the local days of the deadline and of the
/// creation time (which depend on the machine's time zone), then picks the
/// target day. Without a deadline, a scheduled date that reads is the target
/// day; with a deadline in range, the target is the deadline's local day, at
/// most a day from its UTC day.
pub fn get_task_target_date(
    deadline: Option<i64>,
    scheduled_date: Option<&str>,
    created_at: i64,
    today: i32,
) -> (d: i32)
    ensures
        exists|deadline_day: Option<i32>, created_day: Option<i32>|
            (deadline is None ==> deadline_day is None) && (deadline matches Some(ms)
                ==> local_day_fits(ms, deadline_day)) && local_day_fits(created_at, created_day)
                && d == #[trigger] target_day(
                deadline_day,
                scheduled_day_of(scheduled_date.deep_view()),
                created_day,
                today,
            ),
        deadline matches Some(ms) ==> (first_chrono_day() < utc_day_of_millis(ms)
            < last_chrono_day() ==> utc_day_of_millis(ms) - 1 <= d <= utc_day_of_millis(ms) + 1),
{
    let deadline_day = match deadline {
        Some(ms) => local_day_of_millis(ms),
        None => None,
    };
    let created_day = local_day_of_millis(created_at);
    target_day_of(deadline_day, scheduled_date, created_day, today)
}

// ---------------------------------------------------------------------------
// The time of day a reminder fires
// ---------------------------------------------------------------------------

/// The index of the first `:` in `s`, or its length.
pub open spec fn first_colon(s: Seq<char>) -> int
    decreases s.len(),
{
    if s.len() == 0 {
        0
    } else if s[0] == ':' {
        0
    } else {
        1 + first_colon(s.drop_first())
    }
}

pub open spec fn has_no_colon(s: Seq<char>) -> bool {
    forall|i: int| 0 <= i < s.len() ==> #[trigger] s[i] != ':'
}

/// The hour and minute texts of `HH:MM`: `s` split at `:`, when it splits in two.
pub open spec fn time_fields(s: Seq<char>) -> Option<(Seq<char>, Seq<char>)> {
    let i = first_colon(s);
    if i < s.len() && has_no_colon(s.skip(i + 1)) {
        Some((s.take(i), s.skip(i + 1)))
    } else {
        None
    }
}

/// A field of the time, read as a `u32`, 0 when it does not read.
pub open spec fn field_value(s: Seq<char>) -> u32 {
    match parse_int(s, 0, u32::MAX as int) {
        Some(v) => v as u32,
        None => 0,
    }
}

/// Hour and minute, compared as a pair.
pub open spec fn hm_before(a: (u32, u32), b: (u32, u32)) -> bool {
    a.0 < b.0 || (a.0 == b.0 && a.1 < b.1)
}

proof fn lemma_first_colon(s: Seq<char>, i: int)
    requires
        0 <= i <= s.len(),
        forall|j: int| 0 <= j < i ==> s[j] != ':',
        i == s.len() || s[i] == ':',
    ensures
        first_colon(s) == i,
    decreases i,
{
    if i > 0 {
        lemma_first_colon(s.drop_first(), i - 1);
    }
}

/// Splits `HH:MM` into its hour and minute, each read as a `u32` (0 when a
/// field does not read); `None` unless the text splits at `:` into exactly two.
pub fn parse_hour_minute(time: &str) -> (r: Option<(u32, u32)>)
    ensures
        r matches Some(hm) ==> time_fields(time@) matches Some(f) && hm == (
            field_value(f.0),
            field_value(f.1),
        ),
        r is None ==> time_fields(time@) is None,
{
    let cs = chars_of(time);
    let n = cs.len();
    let mut i: usize = 0;
    while i < n && cs[i] != ':'
        invariant
            i <= n == cs@.len(),
            cs@ == time@,
            forall|j: int| 0 <= j < i ==> cs@[j] != ':',
        decreases n - i,
    {
        i = i + 1;
    }
    proof {
        lemma_first_colon(cs@, i as int);
    }
    if i == n {
        return None;
    }
    let mut k: usize = i + 1;
    while k < n && cs[k] != ':'
        invariant
            i < k <= n == cs@.len(),
            forall|j: int| i < j < k ==> cs@[j] != ':',
        decreases n - k,
    {
        k = k + 1;
    }
    if k < n {
        assert(cs@.skip(i + 1)[k - i - 1] == ':');
        return None;
    }
    proof {
        assert forall|j: int| 0 <= j < cs@.skip(i + 1).len() implies #[trigger] cs@.skip(i + 1)[j] != ':' by {
            assert(cs@.skip(i + 1)[j] == cs@[i + 1 + j]);
        }
    }
    let mut hour_chars: Vec<char> = Vec::new();
    let mut t: usize = 0;
    while t < i
        invariant
            t <= i < n == cs@.len(),
            hour_chars@ == cs@.take(t as int),
        decreases i - t,
    {
        hour_chars.push(cs[t]);
        t = t + 1;
        assert(hour_chars@ =~= cs@.take(t as int));
    }
    let hour_text = string_of(hour_chars.as_slice());
    let mut min_chars: Vec<char> = Vec::new();
    let mut j = i + 1;
    while j < n
        invariant
            i + 1 <= j <= n == cs@.len(),
            min_chars@ == cs@.subrange(i + 1, j as int),
        decreases n - j,
    {
        min_chars.push(cs[j]);
        j = j + 1;
        assert(min_chars@ =~= cs@.subrange(i + 1, j as int));
    }
    let min_text = string_of(min_chars.as_slice());
    assert(min_text@ =~= cs@.skip(i + 1));
    let h = match parse_u32(hour_text.as_str()) {
        Some(v) => v,
        None => 0,
    };
    let m = match parse_u32(min_text.as_str()) {
        Some(v) => v,
        None => 0,
    };
    Some((h, m))
}

// ---------------------------------------------------------------------------
// Whether a reminder fires now
// ---------------------------------------------------------------------------

/// A reminder fires when today lies between its remind day and the target
/// day, on the remind day itself unless it repeats, once its time of day has
/// come, and only when its time reads as `HH:MM`.
pub open spec fn reminder_due(
    repeat: bool,
    time: Seq<char>,
    target: int,
    remind: int,
    today: int,
    now_hm: (u32, u32),
) -> bool {
    &&& remind <= today <= target
    &&& (repeat || today == remind)
    &&& time_fields(time) matches Some(f)
    &&& !hm_before(now_hm, (field_value(f.0), field_value(f.1)))
}

pub fn is_reminder_due(
    config: &TaskReminderConfig,
    target: i32,
    remind: i32,
    today: i32,
    now_hm: (u32, u32),
) -> (b: bool)
    ensures
        b == reminder_due(
            config.repeat,
            config.time@,
            target as int,
            remind as int,
            today as int,
            now_hm,
        ),
{
    if today < remind || today > target {
        return false;
    }
    if !config.repeat && today != remind {
        return false;
    }
    match parse_hour_minute(config.time.as_str()) {
        None => false,
        Some((h, m)) => !(now_hm.0 < h || (now_hm.0 == h && now_hm.1 < m)),
    }
}

/// The key a fired reminder is recorded under, one per task, day and offset:
/// `<id>@<today>:<offset_days>`.
pub open spec fn reminder_key(id: Seq<char>, today_text: Seq<char>, offset_days: i64) -> Seq<char> {
    id + seq!['@'] + today_text + seq![':'] + int_text(offset_days as int)
}

pub fn make_reminder_key(id: &str, today_text: &str, offset_days: i64) -> (k: String)
    ensures
        k@ == reminder_key(id@, today_text@, offset_days),
{
    let mut k = String::new();
    append_str(&mut k, id);
    push_char(&mut k, '@');
    append_str(&mut k, today_text);
    push_char(&mut k, ':');
    push_int_text(&mut k, offset_days);
    k
}

// ---------------------------------------------------------------------------
// The text of a reminder
// ---------------------------------------------------------------------------

/// A deadline counts as the whole day when it has no local time, or when
/// that time is `23:59` or `00:00`.
pub open spec fn whole_day(deadline_hm: Option<Seq<char>>) -> bool {
    match deadline_hm {
        None => true,
        Some(hm) => hm == "23:59"@ || hm == "00:00"@,
    }
}

/// How soon the task is due.
pub open spec fn due_phrase(days_left: i64) -> Seq<char> {
    if days_left <= 0 {
        "今天到期"@
    } else if days_left == 1 {
        "明天到期"@
    } else {
        int_text(days_left as int) + " 天后到期"@
    }
}

/// The due date: `<month>月<day>日`, with the deadline's time unless it is the whole day.
pub open spec fn due_date_phrase(month: u32, day: u32, deadline_hm: Option<Seq<char>>) -> Seq<char> {
    let date = int_text(month as int) + "月"@ + int_text(day as int) + "日"@;
    if whole_day(deadline_hm) {
        date
    } else {
        date + " "@ + deadline_hm->0
    }
}

/// The notification text: `「<title>」<due phrase>（<due date>）`.
pub open spec fn deadline_body(
    title: Seq<char>,
    month: u32,
    day: u32,
    deadline_hm: Option<Seq<char>>,
    days_left: i64,
) -> Seq<char> {
    "「"@ + title + "」"@ + due_phrase(days_left) + "（"@ + due_date_phrase(month, day, deadline_hm)
        + "）"@
}

pub fn build_deadline_body(
    task_title: &str,
    month: u32,
    day: u32,
    deadline_hm: Option<&str>,
    days_left: i64,
) -> (s: String)
    ensures
        s@ == deadline_body(task_title@, month, day, deadline_hm.deep_view(), days_left),
{
    let whole = match deadline_hm {
        None => true,
        Some(hm) => {
            let a = same_text(hm, "23:59");
            let b = same_text(hm, "00:00");
            a || b
        },
    };
    let mut s = String::new();
    append_str(&mut s, "「");
    append_str(&mut s, task_title);
    append_str(&mut s, "」");
    if days_left <= 0 {
        append_str(&mut s, "今天到期");
    } else if days_left == 1 {
        append_str(&mut s, "明天到期");
    } else {
        push_int_text(&mut s, days_left);
        append_str(&mut s, " 天后到期");
    }
    append_str(&mut s, "（");
    push_int_text(&mut s, month as i64);
    append_str(&mut s, "月");
    push_int_text(&mut s, day as i64);
    append_str(&mut s, "日");
    if !whole {
        append_str(&mut s, " ");
        match deadline_hm {
            Some(hm) => append_str(&mut s, hm),
            None => {},
        }
    }
    append_str(&mut s, "）");
    s
}

} // verus!

verus! {

// ---------------------------------------------------------------------------
// One task, checked
// ---------------------------------------------------------------------------

/// A pending task with a reminder, as the scheduler reads it.
#[derive(Debug, Clone, PartialEq)]
pub struct ReminderTask {
    pub id: String,
    pub title: String,
    pub deadline: Option<i64>,
    pub scheduled_date: Option<String>,
    pub created_at: i64,
    pub reminder: String,
}

/// Whether a row `id, title, deadline, scheduled_date, created_at, reminder`
/// holds values of the types the scheduler reads.
pub open spec fn reminder_row_ok(row: Seq<CellView>) -> bool {
    &&& is_text_or_null(cell_at(row, 0))
    &&& is_text_or_null(cell_at(row, 1))
    &&& is_integer_or_null(cell_at(row, 2))
    &&& is_text_or_null(cell_at(row, 3))
    &&& is_integer_or_null(cell_at(row, 4))
    &&& is_text_or_null(cell_at(row, 5))
}

pub open spec fn text_or_empty(o: Option<Seq<char>>) -> Seq<char> {
    match o {
        Some(s) => s,
        None => Seq::empty(),
    }
}

impl ReminderTask {
    pub fn from_row(row: &Row) -> (t: ReminderTask)
        requires
            reminder_row_ok(row@),
        ensures
            t.id@ == text_or_empty(typed_text(cell_at(row@, 0))),
            t.title@ == text_or_empty(typed_text(cell_at(row@, 1))),
            t.deadline == typed_int(cell_at(row@, 2)),
            t.scheduled_date.deep_view() == typed_text(cell_at(row@, 3)),
            t.created_at == (match typed_int(cell_at(row@, 4)) {
                Some(n) => n,
                None => 0,
            }),
            t.reminder@ == text_or_empty(typed_text(cell_at(row@, 5))),
    {
        ReminderTask {
            id: match row.get_text(0) {
                Some(s) => s,
                None => String::new(),
            },
            title: match row.get_text(1) {
                Some(s) => s,
                None => String::new(),
            },
            deadline: row.get_int(2),
            scheduled_date: row.get_text(3),
            created_at: match row.get_int(4) {
                Some(n) => n,
                None => 0,
            },
            reminder: match row.get_text(5) {
                Some(s) => s,
                None => String::new(),
            },
        }
    }
}

/// What the scheduler does with one task now.
#[derive(Debug, Clone, PartialEq)]
pub enum ReminderOutcome {
    /// Not due now.
    Skip,
    /// Due: record `key` as fired (unless it already is) and notify with `body`.
    Fire { key: String, body: String },
    /// A day left chrono's calendar (where subtracting the offset would panic).
    OutOfRange,
}

/// Checks one task against its reminder. `target` is its target day (see
/// `get_task_target_date`), `today` and `now_hm` the local day and time.
pub fn evaluate_task_reminder(
    task: &ReminderTask,
    config: &TaskReminderConfig,
    target: i32,
    today: i32,
    now_hm: (u32, u32),
) -> (r: ReminderOutcome)
    ensures
        r is OutOfRange <==> (days_before(target, config.offset_days) is None || (reminder_due(
            config.repeat,
            config.time@,
            target as int,
            target - config.offset_days,
            today as int,
            now_hm,
        ) && (day_text(today) is None || month_and_day(target) is None))),
        r is Skip <==> (days_before(target, config.offset_days) is Some && !reminder_due(
            config.repeat,
            config.time@,
            target as int,
            target - config.offset_days,
            today as int,
            now_hm,
        )),
        chrono_day_in_range(target as int) && chrono_day_in_range(today as int)
            && chrono_day_in_range(target - config.offset_days) ==> !(r is OutOfRange),
        r matches ReminderOutcome::Fire { key, body } ==> {
            &&& reminder_due(
                config.repeat,
                config.time@,
                target as int,
                target - config.offset_days,
                today as int,
                now_hm,
            )
            &&& day_text(today) is Some
            &&& key@ == reminder_key(task.id@, day_text(today)->0, config.offset_days)
            &&& month_and_day(target) is Some
            &&& exists|hm: Option<Seq<char>>|
                (hm is Some <==> (task.deadline matches Some(ms) && millis_in_range(ms))) && body@
                    == #[trigger] deadline_body(
                    task.title@,
                    (month_and_day(target)->0).0,
                    (month_and_day(target)->0).1,
                    hm,
                    (target - today) as i64,
                )
        },
{
    let remind = match checked_days_before(target, config.offset_days) {
        Some(d) => d,
        None => {
            return ReminderOutcome::OutOfRange;
        },
    };
    if !is_reminder_due(config, target, remind, today, now_hm) {
        return ReminderOutcome::Skip;
    }
    let today_text = match day_to_text(today) {
        Some(t) => t,
        None => {
            return ReminderOutcome::OutOfRange;
        },
    };
    let key = make_reminder_key(task.id.as_str(), today_text.as_str(), config.offset_days);
    let (month, day) = match day_month_and_day(target) {
        Some(md) => md,
        None => {
            return ReminderOutcome::OutOfRange;
        },
    };
    let hm: Option<String> = match task.deadline {
        Some(ms) => local_hour_minute_text(ms),
        None => None,
    };
    let days_left: i64 = target as i64 - today as i64;
    let body = match &hm {
        Some(h) => build_deadline_body(task.title.as_str(), month, day, Some(h.as_str()), days_left),
        None => build_deadline_body(task.title.as_str(), month, day, None, days_left),
    };
    assert(body@ == deadline_body(
        task.title@,
        (month_and_day(target)->0).0,
        (month_and_day(target)->0).1,
        hm.deep_view(),
        (target - today) as i64,
    ));
    ReminderOutcome::Fire { key, body }
}

// ---------------------------------------------------------------------------
// Firing a due reminder once
// ---------------------------------------------------------------------------

/// What the scheduler does with a due reminder.
#[derive(Debug, Clone, PartialEq)]
pub enum ReminderAction {
    /// Nothing: its key is already recorded, or the lookup failed.
    Nothing,
    /// Record `key` as fired, then notify with `body`.
    RecordAndNotify { key: String, body: String },
}

/// Whether a due reminder notifies, given the lookup of its key among the
/// fired ones: `None` when the lookup failed, else whether a row came back.
pub open spec fn notifies(lookup: Option<bool>) -> bool {
    lookup == Some(false)
}

/// The step after a due reminder's key was looked up: a key found, or a
/// lookup that failed, gives nothing; a key not found is recorded and
/// notified.
pub fn next_reminder_action(key: String, body: String, lookup: Option<bool>) -> (a: ReminderAction)
    ensures
        a is RecordAndNotify <==> notifies(lookup),
        a matches ReminderAction::RecordAndNotify { key: k, body: b } ==> k@ == key@ && b@ == body@,
{
    match lookup {
        Some(false) => ReminderAction::RecordAndNotify { key, body },
        _ => ReminderAction::Nothing,
    }
}

/// The fired keys after a step on `key`: recorded when it notifies.
pub open spec fn recorded_after(recorded: Set<Seq<char>>, key: Seq<char>, lookup: Option<bool>) -> Set<
    Seq<char>,
> {
    if notifies(lookup) {
        recorded.insert(key)
    } else {
        recorded
    }
}

/// The notifications for one key over a run of checks, each of which looks
/// the key up among the recorded ones (`failed[i]`: the lookup of check `i`
/// failed) and records it when it notifies.
pub open spec fn notifications(recorded: Set<Seq<char>>, key: Seq<char>, failed: Seq<bool>) -> nat
    decreases failed.len(),
{
    if failed.len() == 0 {
        0
    } else {
        let lookup = if failed[0] {
            None
        } else {
            Some(recorded.contains(key))
        };
        (if notifies(lookup) {
            1nat
        } else {
            0nat
        }) + notifications(recorded_after(recorded, key, lookup), key, failed.drop_first())
    }
}

/// A reminder notifies at most once per key, that is per task, day and
/// offset, however many checks run (with its record kept): none once its key
/// is recorded, and at most one before.
pub proof fn law_reminder_at_most_once(recorded: Set<Seq<char>>, key: Seq<char>, failed: Seq<bool>)
    ensures
        notifications(recorded, key, failed) <= 1,
        recorded.contains(key) ==> notifications(recorded, key, failed) == 0,
    decreases failed.len(),
{
    if failed.len() > 0 {
        let lookup = if failed[0] {
            None
        } else {
            Some(recorded.contains(key))
        };
        law_reminder_at_most_once(recorded_after(recorded, key, lookup), key, failed.drop_first());
    }
}

/// How long fired-reminder records are kept: two weeks, in milliseconds.
pub open spec fn fired_retention_ms() -> int {
    1_209_600_000
}

/// The cut-off below which fired-reminder records are deleted: two weeks
/// before `now_ms`. `None` where that moment is before chrono's range.
pub fn fired_cutoff(now_ms: i64) -> (r: Option<i64>)
    ensures
        r matches Some(c) ==> c == now_ms - fired_retention_ms(),
        now_ms >= i64::MIN + fired_retention_ms() ==> r is Some,
{
    if now_ms >= i64::MIN + 1_209_600_000 {
        Some(now_ms - 1_209_600_000)
    } else {
        None
    }
}

/// How long after startup the reminder checks begin, in seconds.
pub const REMINDER_START_DELAY_SECS: u64 = 5;

/// How often the reminders are checked, in seconds.
pub const REMINDER_INTERVAL_SECS: u64 = 15;

/// The title of a reminder notification.
pub const REMINDER_TITLE: &'static str = "⏰ 任务提醒";

/// A reminder fires at most once per task, day and offset: the keys of
/// different days or offsets differ (for day texts without a `:`, as the
/// `%Y-%m-%d` texts are).
pub proof fn law_reminder_keys_distinct(
    id: Seq<char>,
    day1: Seq<char>,
    off1: i64,
    day2: Seq<char>,
    off2: i64,
)
    requires
        !day1.contains(':'),
        !day2.contains(':'),
        day1 != day2 || off1 != off2,
    ensures
        reminder_key(id, day1, off1) != reminder_key(id, day2, off2),
{
    let k1 = reminder_key(id, day1, off1);
    let k2 = reminder_key(id, day2, off2);
    if k1 == k2 {
        let s1 = k1.skip(id.len() + 1 as int);
        let s2 = k2.skip(id.len() + 1 as int);
        assert(s1 =~= day1 + seq![':'] + int_text(off1 as int));
        assert(s2 =~= day2 + seq![':'] + int_text(off2 as int));
        if day1.len() < day2.len() {
            assert(s1[day1.len() as int] == ':');
            assert(s2[day1.len() as int] == day2[day1.len() as int]);
        } else if day2.len() < day1.len() {
            assert(s2[day2.len() as int] == ':');
            assert(s1[day2.len() as int] == day1[day2.len() as int]);
        } else {
            assert(day1 =~= s1.take(day1.len() as int));
            assert(day2 =~= s2.take(day2.len() as int));
            assert(int_text(off1 as int) =~= s1.skip(day1.len() + 1 as int));
            assert(int_text(off2 as int) =~= s2.skip(day2.len() + 1 as int));
            crate::numbers::law_int_text_round_trip(off1 as int, i64::MIN as int, i64::MAX as int);
            crate::numbers::law_int_text_round_trip(off2 as int, i64::MIN as int, i64::MAX as int);
        }
    }
}

/// A reminder's time of day, once come, stays come: if it is due at
/// `earlier`, it is due at every later time of the same day (`later` a
/// valid `HH:MM`, with at least as many minutes since midnight). So hours
/// and minutes are compared as one time, and a reminder for 09:30 that is
/// due at 09:45 is due at 10:15.
pub proof fn law_reminder_due_stays_due(
    repeat: bool,
    time: Seq<char>,
    target: int,
    remind: int,
    today: int,
    earlier: (u32, u32),
    later: (u32, u32),
)
    requires
        reminder_due(repeat, time, target, remind, today, earlier),
        later.1 < 60,
        earlier.0 as int * 60 + earlier.1 <= later.0 as int * 60 + later.1,
    ensures
        reminder_due(repeat, time, target, remind, today, later),
{
}

/// On a day the reminder may fire, it is due exactly when the time of day
/// has reached its `HH:MM`: due at that very minute, and not due at any
/// earlier minute of the day (minutes under 60).
pub proof fn law_reminder_due_from_its_time(
    repeat: bool,
    time: Seq<char>,
    target: int,
    remind: int,
    today: int,
    now_hm: (u32, u32),
)
    requires
        remind <= today <= target,
        repeat || today == remind,
        time_fields(time) is Some,
    ensures
        ({
            let f = time_fields(time)->0;
            let h = field_value(f.0);
            let m = field_value(f.1);
            &&& reminder_due(repeat, time, target, remind, today, (h, m))
            &&& (m < 60 && now_hm.1 < 60 && now_hm.0 as int * 60 + now_hm.1 < h as int * 60 + m)
                ==> !reminder_due(repeat, time, target, remind, today, now_hm)
            &&& (now_hm.0 as int * 60 + now_hm.1 >= h as int * 60 + m && now_hm.1 < 60)
                ==> reminder_due(repeat, time, target, remind, today, now_hm)
        }),
{
    let f = time_fields(time)->0;
    let h = field_value(f.0);
    let m = field_value(f.1);
    if now_hm.0 as int * 60 + now_hm.1 >= h as int * 60 + m && now_hm.1 < 60 {
        law_reminder_due_stays_due(repeat, time, target, remind, today, (h, m), now_hm);
    }
}

/// Which days a reminder fires on: only between its remind day and the
/// task's target day; a reminder that does not repeat fires on one day at
/// most (the remind day); one that repeats, once due on a day at some time,
/// is due at that time on every later day up to the target day.
pub proof fn law_reminder_days(
    repeat: bool,
    time: Seq<char>,
    target: int,
    remind: int,
    d1: int,
    d2: int,
    now_hm: (u32, u32),
)
    ensures
        reminder_due(repeat, time, target, remind, d1, now_hm) ==> remind <= d1 <= target,
        !repeat && reminder_due(repeat, time, target, remind, d1, now_hm) ==> d1 == remind,
        !repeat && reminder_due(repeat, time, target, remind, d1, now_hm) && reminder_due(
            repeat,
            time,
            target,
            remind,
            d2,
            now_hm,
        ) ==> d1 == d2,
        repeat && reminder_due(repeat, time, target, remind, d1, now_hm) && d1 <= d2 <= target
            ==> reminder_due(repeat, time, target, remind, d2, now_hm),
{
}

/// A task's target day is its deadline's day whenever it has one, whatever
/// its schedule and creation; without one, a scheduled date that reads is
/// the target whatever the creation; only then the creation day, and only
/// without that, today.
pub proof fn law_target_day_precedence(
    d: i32,
    s1: Option<i32>,
    s2: Option<i32>,
    c1: Option<i32>,
    c2: Option<i32>,
    t1: i32,
    t2: i32,
)
    ensures
        target_day(Some(d), s1, c1, t1) == d,
        target_day(Some(d), s1, c1, t1) == target_day(Some(d), s2, c2, t2),
        s1 matches Some(s) ==> target_day(None, s1, c1, t1) == s && target_day(None, s1, c1, t1)
            == target_day(None, s1, c2, t2),
        c1 matches Some(c) ==> target_day(None, None, c1, t1) == c,
        target_day(None, None, None, t1) == t1,
{
}

} // verus!
