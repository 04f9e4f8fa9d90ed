pub mod text;
pub mod numbers;
pub mod error;
pub mod clock;
pub mod row;
pub mod list;
pub mod ids;
pub mod reminder;
pub mod json;
pub mod dictionary;
pub mod youdao;
pub mod habit;
pub mod pomodoro;
pub mod time_management;
pub mod mission;
pub mod daily_review;
pub mod config;
pub mod list_migration;
pub mod file_dialog;
pub mod schema;
pub mod watermark;
pub mod queries;
pub mod outbox;
