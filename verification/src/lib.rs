//! Calendar-addressed journal library: validated date units, filename codecs
//! for daily/monthly/yearly entries, filtering and ordering of entries, and a
//! placeholder template engine with memoized command execution.

pub mod calendar;
pub mod digits;
pub mod strutil;
pub mod errors;
pub mod units_validated;
pub mod constants;
pub mod app_config;
pub mod dates_names;
pub mod daily_names;
pub mod open_by;
pub mod find_by;
pub mod data_models;
pub mod monthly_name;
pub mod yearly_name;
pub mod date_filtering;
pub mod list_queries;
pub mod command_processor;
pub mod place_holder_replacer;
pub mod template;
pub mod app_args;
pub mod app_options;
pub mod edit_argument;
pub mod edit_command;
pub mod list_command;
pub mod month_edit_command;
pub mod month_list_command;
pub mod edit_year;
pub mod deletion_arguments;
pub mod delete_actions;
