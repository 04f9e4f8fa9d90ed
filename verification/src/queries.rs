use vstd::prelude::*;

verus! {

// The statements the app runs, by page. Each query selects its columns in the
// order the row readers of its page read them, and each statement binds its
// values in the order the parameter builders of its page produce them.

// ---------------------------------------------------------------------------
// Lists
// ---------------------------------------------------------------------------

pub const SELECT_FOLDERS: &'static str = "SELECT id, name, is_pinned, sort_order FROM list_folders WHERE deleted_at IS NULL ORDER BY sort_order";

pub const SELECT_LISTS: &'static str = "SELECT l.id, l.name, l.icon, l.color, l.view_type, l.folder_id, l.is_pinned, l.sort_order, COALESCE(n.cnt, 0) AS item_count FROM list_lists l LEFT JOIN (SELECT list_id, COUNT(*) AS cnt FROM list_notes WHERE deleted_at IS NULL GROUP BY list_id) n ON n.list_id = l.id WHERE l.deleted_at IS NULL ORDER BY l.is_pinned DESC, l.sort_order";

pub const SELECT_NOTE_GROUPS: &'static str = "SELECT id, list_id, name, sort_order FROM list_note_groups WHERE deleted_at IS NULL ORDER BY sort_order";

pub const SELECT_NOTES: &'static str = "SELECT id, list_id, group_id, title, content, is_pinned, sort_order, created_at, updated_at FROM list_notes WHERE deleted_at IS NULL ORDER BY is_pinned DESC, sort_order, updated_at DESC";

pub const SELECT_TEMPLATES: &'static str = "SELECT id, name, content FROM list_templates WHERE deleted_at IS NULL";

pub const UPSERT_FOLDER: &'static str = "INSERT INTO list_folders (id, name, is_pinned, sort_order, created_at, updated_at) VALUES (?1, ?2, ?3, ?4, ?5, ?6) ON CONFLICT(id) DO UPDATE SET name = excluded.name, is_pinned = excluded.is_pinned, sort_order = excluded.sort_order, updated_at = excluded.updated_at";

pub const SOFT_DELETE_FOLDER: &'static str = "UPDATE list_folders SET deleted_at = ?1, updated_at = ?2 WHERE id = ?3";

pub const UNFILE_LISTS_OF_FOLDER: &'static str = "UPDATE list_lists SET folder_id = NULL, updated_at = ?1 WHERE folder_id = ?2";

pub const REORDER_FOLDER: &'static str = "UPDATE list_folders SET sort_order = ?1, updated_at = ?2 WHERE id = ?3";

pub const UPSERT_LIST: &'static str = "INSERT INTO list_lists (id, name, icon, color, view_type, folder_id, is_pinned, sort_order, created_at, updated_at) VALUES (?1, ?2, ?3, ?4, ?5, ?6, ?7, ?8, ?9, ?10) ON CONFLICT(id) DO UPDATE SET name = excluded.name, icon = excluded.icon, color = excluded.color, view_type = excluded.view_type, folder_id = excluded.folder_id, is_pinned = excluded.is_pinned, sort_order = excluded.sort_order, updated_at = excluded.updated_at";

pub const SOFT_DELETE_LIST: &'static str = "UPDATE list_lists SET deleted_at = ?1 WHERE id = ?2";

pub const SOFT_DELETE_NOTES_OF_LIST: &'static str = "UPDATE list_notes SET deleted_at = ?1 WHERE list_id = ?2 AND deleted_at IS NULL";

pub const SOFT_DELETE_GROUPS_OF_LIST: &'static str = "UPDATE list_note_groups SET deleted_at = ?1, updated_at = ?2 WHERE list_id = ?3 AND deleted_at IS NULL";

pub const REORDER_LIST: &'static str = "UPDATE list_lists SET sort_order = ?1, updated_at = ?2 WHERE id = ?3";

pub const MOVE_LIST: &'static str = "UPDATE list_lists SET folder_id = ?1, sort_order = ?2, updated_at = ?3 WHERE id = ?4";

pub const SELECT_GROUPS_TO_COPY: &'static str = "SELECT id, name, sort_order FROM list_note_groups WHERE list_id = ?1";

pub const SELECT_NOTES_TO_COPY: &'static str = "SELECT id, group_id, title, content, is_pinned, sort_order FROM list_notes WHERE list_id = ?1 AND deleted_at IS NULL";

pub const INSERT_LIST: &'static str = "INSERT INTO list_lists (id, name, icon, color, view_type, folder_id, is_pinned, sort_order, created_at, updated_at) VALUES (?1, ?2, ?3, ?4, ?5, ?6, ?7, ?8, ?9, ?10)";

pub const INSERT_NOTE_GROUP: &'static str = "INSERT INTO list_note_groups (id, list_id, name, sort_order, created_at, updated_at) VALUES (?1, ?2, ?3, ?4, ?5, ?6)";

pub const INSERT_NOTE: &'static str = "INSERT INTO list_notes (id, list_id, group_id, title, content, is_pinned, sort_order, created_at, updated_at) VALUES (?1, ?2, ?3, ?4, ?5, ?6, ?7, ?8, ?9)";

pub const UPSERT_NOTE: &'static str = "INSERT INTO list_notes (id, list_id, group_id, title, content, is_pinned, sort_order, created_at, updated_at) VALUES (?1, ?2, ?3, ?4, ?5, ?6, ?7, ?8, ?9) ON CONFLICT(id) DO UPDATE SET list_id = excluded.list_id, group_id = excluded.group_id, title = excluded.title, content = excluded.content, is_pinned = excluded.is_pinned, sort_order = excluded.sort_order, updated_at = excluded.updated_at";

pub const SOFT_DELETE_NOTE: &'static str = "UPDATE list_notes SET deleted_at = ?1, updated_at = ?2 WHERE id = ?3";

pub const MOVE_NOTE: &'static str = "UPDATE list_notes SET list_id = ?1, group_id = ?2, sort_order = ?3, updated_at = ?4 WHERE id = ?5";

pub const REORDER_NOTE: &'static str = "UPDATE list_notes SET sort_order = ?1, updated_at = ?2 WHERE id = ?3";

pub const UPSERT_NOTE_GROUP: &'static str = "INSERT INTO list_note_groups (id, list_id, name, sort_order, created_at, updated_at) VALUES (?1, ?2, ?3, ?4, ?5, ?6) ON CONFLICT(id) DO UPDATE SET name = excluded.name, sort_order = excluded.sort_order, updated_at = excluded.updated_at";

pub const UNGROUP_NOTES: &'static str = "UPDATE list_notes SET group_id = NULL, updated_at = ?1 WHERE group_id = ?2 AND deleted_at IS NULL";

pub const SOFT_DELETE_NOTE_GROUP: &'static str = "UPDATE list_note_groups SET deleted_at = ?1, updated_at = ?2 WHERE id = ?3";

pub const UPSERT_TEMPLATE: &'static str = "INSERT INTO list_templates (id, name, content, created_at, updated_at) VALUES (?1, ?2, ?3, ?4, ?5) ON CONFLICT(id) DO UPDATE SET name = excluded.name, content = excluded.content, updated_at = excluded.updated_at";

pub const SOFT_DELETE_TEMPLATE: &'static str = "UPDATE list_templates SET deleted_at = ?1, updated_at = ?2 WHERE id = ?3";

pub const IMPORT_FOLDER: &'static str = "INSERT OR IGNORE INTO list_folders (id, name, is_pinned, sort_order, created_at, updated_at) VALUES (?1, ?2, ?3, ?4, ?5, ?6)";

pub const IMPORT_LIST: &'static str = "INSERT OR IGNORE INTO list_lists (id, name, icon, color, view_type, folder_id, is_pinned, sort_order, created_at, updated_at) VALUES (?1, ?2, ?3, ?4, ?5, ?6, ?7, ?8, ?9, ?10)";

pub const IMPORT_NOTE_GROUP: &'static str = "INSERT OR IGNORE INTO list_note_groups (id, list_id, name, sort_order, created_at, updated_at) VALUES (?1, ?2, ?3, ?4, ?5, ?6)";

pub const IMPORT_NOTE: &'static str = "INSERT OR IGNORE INTO list_notes (id, list_id, group_id, title, content, is_pinned, sort_order, created_at, updated_at) VALUES (?1, ?2, ?3, ?4, ?5, ?6, ?7, ?8, ?9)";

pub const IMPORT_TEMPLATE: &'static str = "INSERT OR IGNORE INTO list_templates (id, name, content, created_at, updated_at) VALUES (?1, ?2, ?3, ?4, ?5)";

// ---------------------------------------------------------------------------
// Habits
// ---------------------------------------------------------------------------

pub const SELECT_HABITS_WITH_CHECKINS: &'static str = "SELECT h.id, h.name, h.frequency, h.goal, h.start_date, h.duration, h.category, h.reminder, h.auto_popup_log, h.created_at, h.updated_at, c.id, c.date, c.completed, c.created_at, c.updated_at FROM habits h LEFT JOIN habit_checkins c ON c.habit_id = h.id AND c.deleted_at IS NULL WHERE h.deleted_at IS NULL ORDER BY h.created_at ASC";

pub const INSERT_HABIT: &'static str = "INSERT INTO habits (id, name, frequency, goal, start_date, duration, category, reminder, auto_popup_log, created_at, updated_at) VALUES (?1, ?2, ?3, ?4, ?5, ?6, ?7, ?8, ?9, ?10, ?11)";

pub const UPDATE_HABIT: &'static str = "UPDATE habits SET name = COALESCE(?1, name), frequency = ?2, goal = ?3, start_date = ?4, duration = ?5, category = ?6, reminder = COALESCE(?7, reminder), auto_popup_log = ?8, updated_at = ?9 WHERE id = ?10";

pub const SOFT_DELETE_CHECKINS_OF_HABIT: &'static str = "UPDATE habit_checkins SET deleted_at = ?1, updated_at = ?2 WHERE habit_id = ?3";

pub const SOFT_DELETE_HABIT: &'static str = "UPDATE habits SET deleted_at = ?1, updated_at = ?2 WHERE id = ?3";

pub const UPSERT_CHECKIN_RETURNING: &'static str = "INSERT INTO habit_checkins (id, habit_id, date, completed, created_at, updated_at) VALUES (?1, ?2, ?3, ?4, ?5, ?6) ON CONFLICT(habit_id, date) DO UPDATE SET completed = excluded.completed, updated_at = excluded.updated_at, deleted_at = NULL RETURNING id, completed, created_at, updated_at";

// ---------------------------------------------------------------------------
// Focus sessions
// ---------------------------------------------------------------------------

pub const SELECT_RECORDS: &'static str = "SELECT id, mode, phase, start_time, end_time, duration_minutes, date, date_label, time_range_label, task_id, linked_target, created_at FROM pomodoro_records WHERE deleted_at IS NULL ORDER BY start_time DESC";

pub const SELECT_FAVORITES: &'static str = "SELECT id, name, icon, mode, duration_minutes, accumulated_minutes, linked_target, is_archived, created_at FROM pomodoro_favorites WHERE deleted_at IS NULL ORDER BY created_at DESC";

pub const UPSERT_RECORD: &'static str = "INSERT INTO pomodoro_records (id, mode, phase, start_time, end_time, duration_minutes, date, date_label, time_range_label, task_id, linked_target, created_at, updated_at) VALUES (?1, ?2, ?3, ?4, ?5, ?6, ?7, ?8, ?9, ?10, ?11, ?12, ?13) ON CONFLICT(id) DO UPDATE SET mode = excluded.mode, phase = excluded.phase, start_time = excluded.start_time, end_time = excluded.end_time, duration_minutes = excluded.duration_minutes, date = excluded.date, date_label = excluded.date_label, time_range_label = excluded.time_range_label, task_id = excluded.task_id, linked_target = excluded.linked_target, updated_at = excluded.updated_at";

pub const SOFT_DELETE_RECORD: &'static str = "UPDATE pomodoro_records SET deleted_at = ?1, updated_at = ?2 WHERE id = ?3";

pub const SOFT_DELETE_ALL_RECORDS: &'static str = "UPDATE pomodoro_records SET deleted_at = ?1, updated_at = ?2 WHERE deleted_at IS NULL";

pub const UPSERT_FAVORITE: &'static str = "INSERT INTO pomodoro_favorites (id, name, icon, mode, duration_minutes, accumulated_minutes, linked_target, is_archived, created_at, updated_at) VALUES (?1, ?2, ?3, ?4, ?5, ?6, ?7, ?8, ?9, ?10) ON CONFLICT(id) DO UPDATE SET name = excluded.name, icon = excluded.icon, mode = excluded.mode, duration_minutes = excluded.duration_minutes, accumulated_minutes = excluded.accumulated_minutes, linked_target = excluded.linked_target, is_archived = excluded.is_archived, updated_at = excluded.updated_at";

pub const SOFT_DELETE_FAVORITE: &'static str = "UPDATE pomodoro_favorites SET deleted_at = ?1, updated_at = ?2 WHERE id = ?3";

// ---------------------------------------------------------------------------
// Mission
// ---------------------------------------------------------------------------

pub const SELECT_STATEMENT: &'static str = "SELECT id, content, updated_at FROM mission_statement WHERE id = 'default' LIMIT 1";

pub const SELECT_ROLES: &'static str = "SELECT id, name, icon, sort_order, created_at, updated_at FROM mission_roles WHERE deleted_at IS NULL ORDER BY sort_order";

pub const SELECT_GOALS: &'static str = "SELECT id, role_id, title, status, time_scope, start_date, end_date, sort_order, created_at, updated_at FROM mission_goals WHERE deleted_at IS NULL ORDER BY sort_order";

pub const UPSERT_STATEMENT: &'static str = "INSERT INTO mission_statement (id, content, updated_at) VALUES ('default', ?1, ?2) ON CONFLICT(id) DO UPDATE SET content = excluded.content, updated_at = excluded.updated_at";

pub const INSERT_ROLE: &'static str = "INSERT INTO mission_roles (id, name, icon, sort_order, created_at, updated_at) VALUES (?1, ?2, ?3, ?4, ?5, ?6)";

pub const UPDATE_ROLE: &'static str = "UPDATE mission_roles SET name = ?1, icon = ?2, updated_at = ?3 WHERE id = ?4";

pub const SOFT_DELETE_GOALS_OF_ROLE: &'static str = "UPDATE mission_goals SET deleted_at = ?1, updated_at = ?2 WHERE role_id = ?3";

pub const UNASSIGN_TASKS_OF_ROLE: &'static str = "UPDATE time_management_tasks SET role_id = NULL WHERE role_id = ?1";

pub const SOFT_DELETE_ROLE: &'static str = "UPDATE mission_roles SET deleted_at = ?1, updated_at = ?2 WHERE id = ?3";

pub const REORDER_ROLE: &'static str = "UPDATE mission_roles SET sort_order = ?1, updated_at = ?2 WHERE id = ?3";

pub const INSERT_GOAL: &'static str = "INSERT INTO mission_goals (id, role_id, title, status, time_scope, sort_order, created_at, updated_at) VALUES (?1, ?2, ?3, 'not_started', 'long', ?4, ?5, ?6)";

pub const UPDATE_GOAL: &'static str = "UPDATE mission_goals SET title = COALESCE(?1, title), status = COALESCE(?2, status), time_scope = COALESCE(?3, time_scope), start_date = CASE WHEN ?4 IS NULL THEN start_date WHEN ?4 = '' THEN NULL ELSE ?4 END, end_date = CASE WHEN ?5 IS NULL THEN end_date WHEN ?5 = '' THEN NULL ELSE ?5 END, updated_at = ?6 WHERE id = ?7";

pub const SOFT_DELETE_GOAL: &'static str = "UPDATE mission_goals SET deleted_at = ?1, updated_at = ?2 WHERE id = ?3";

pub const REORDER_GOAL: &'static str = "UPDATE mission_goals SET sort_order = ?1, updated_at = ?2 WHERE id = ?3 AND role_id = ?4";

// ---------------------------------------------------------------------------
// Time management
// ---------------------------------------------------------------------------

pub const SELECT_QUADRANT_ROLES: &'static str = "SELECT id, name, created_at FROM mission_roles WHERE deleted_at IS NULL ORDER BY sort_order";

pub const SELECT_TASKS: &'static str = "SELECT id, title, role_id, quadrant, scheduled_date, time_of_day, completed, created_at, completed_at, description, deadline, reminder FROM time_management_tasks WHERE deleted_at IS NULL";

pub const UPSERT_TASK: &'static str = "INSERT INTO time_management_tasks (id, title, role_id, quadrant, scheduled_date, time_of_day, completed, created_at, completed_at, description, deadline, reminder, updated_at) VALUES (?1, ?2, ?3, ?4, ?5, ?6, ?7, ?8, ?9, ?10, ?11, ?12, ?13) ON CONFLICT(id) DO UPDATE SET title = excluded.title, role_id = excluded.role_id, quadrant = excluded.quadrant, scheduled_date = excluded.scheduled_date, time_of_day = excluded.time_of_day, completed = excluded.completed, created_at = excluded.created_at, completed_at = excluded.completed_at, description = excluded.description, deadline = excluded.deadline, reminder = excluded.reminder, updated_at = excluded.updated_at";

pub const CLEAR_FIRED_OF_TASK: &'static str = "DELETE FROM task_reminder_fired WHERE key LIKE ?1";

pub const SOFT_DELETE_TASK: &'static str = "UPDATE time_management_tasks SET deleted_at = ?1, updated_at = ?2 WHERE id = ?3";

// ---------------------------------------------------------------------------
// Daily review
// ---------------------------------------------------------------------------

pub const SELECT_REVIEWS: &'static str = "SELECT id, date, content, rating, created_at, updated_at FROM daily_reviews WHERE deleted_at IS NULL";

pub const UPSERT_REVIEW: &'static str = "INSERT INTO daily_reviews (id, date, content, rating, created_at, updated_at) VALUES (?1, ?2, ?3, ?4, ?5, ?6) ON CONFLICT(id) DO UPDATE SET content = excluded.content, rating = excluded.rating, updated_at = excluded.updated_at";

pub const SOFT_DELETE_REVIEW: &'static str = "UPDATE daily_reviews SET deleted_at = ?1, updated_at = ?2 WHERE id = ?3";

// ---------------------------------------------------------------------------
// Preferences
// ---------------------------------------------------------------------------

pub const SELECT_PREFERENCE: &'static str = "SELECT pref_value FROM app_preferences WHERE pref_key = ?1";

pub const UPSERT_PREFERENCE: &'static str = "INSERT INTO app_preferences (pref_key, pref_value) VALUES (?1, ?2) ON CONFLICT(pref_key) DO UPDATE SET pref_value = excluded.pref_value";

// ---------------------------------------------------------------------------
// Dictionary cache
// ---------------------------------------------------------------------------

pub const SELECT_CACHED_WORD: &'static str = "SELECT word, phonetic, definition, translation, pos, tag, exchange, collins, oxford FROM dict_cache WHERE word = ?1 LIMIT 1";

pub const UPSERT_CACHED_WORD: &'static str = "INSERT INTO dict_cache (word, phonetic, definition, translation, pos, tag, exchange, collins, oxford, created_at) VALUES (?1, ?2, ?3, ?4, ?5, ?6, ?7, ?8, ?9, ?10) ON CONFLICT(word) DO UPDATE SET phonetic = excluded.phonetic, translation = excluded.translation, pos = excluded.pos";

// ---------------------------------------------------------------------------
// Reminders
// ---------------------------------------------------------------------------

pub const SELECT_REMINDER_TASKS: &'static str = "SELECT id, title, deadline, scheduled_date, created_at, reminder FROM time_management_tasks WHERE completed = 0 AND deleted_at IS NULL AND reminder IS NOT NULL AND reminder != ''";

pub const SELECT_FIRED: &'static str = "SELECT 1 FROM task_reminder_fired WHERE key = ?1";

pub const RECORD_FIRED: &'static str = "INSERT OR REPLACE INTO task_reminder_fired (key, fired_at) VALUES (?1, ?2)";

pub const PRUNE_FIRED: &'static str = "DELETE FROM task_reminder_fired WHERE fired_at < ?1";

} // verus!
