//! A local, single-user secrets vault: credential records persisted in an
//! encrypted SQLite store, browsed and mutated through a small interaction
//! state machine.
//!
//! The store ([`Database`]) and the session that mirrors it in memory
//! ([`Helsafe`]) carry contracts over a mathematical model of the backing
//! table; the navigation state ([`NavState`]) and the tab state machine
//! ([`App`]) are pure and fully specified. Terminal input and output live
//! outside this crate.

mod app;
mod cli;
mod db;
mod helsafe;
mod password;
mod search;
mod view;

pub use app::lemma_tab_cycle;
pub use app::nav_step;
pub use app::spec_next_tab;
pub use app::spec_tab_index;
pub use app::App;
pub use app::InputEvent;
pub use app::State;
pub use cli::dec_str;
pub use cli::header_row;
pub use cli::menu_choice;
pub use cli::spec_table_row;
pub use cli::strings_of;
pub use cli::table_rows;
pub use cli::OperationMode;
pub use db::contains_id;
pub use db::db_rows;
pub use db::idx_of_id;
pub use db::lemma_delete_then_load;
pub use db::lemma_insert_then_load;
pub use db::rows_updated;
pub use db::spec_describe;
pub use db::Database;
pub use db::VaultError;
pub use helsafe::index_of_id;
pub use helsafe::Helsafe;
pub use helsafe::rows_of;
pub use password::Password;
pub use password::PasswordView;
pub use password::RowView;
pub use password::StoredPassword;
pub use search::is_substring;
pub use search::match_pred;
pub use search::record_matches;
pub use search::search_records;
pub use search::str_contains;
pub use view::iter_select_next;
pub use view::lemma_reveal_involution;
pub use view::lemma_select_next_cycles;
pub use view::list_label;
pub use view::spec_displayed_password;
pub use view::spec_select_next;
pub use view::spec_select_prev;
pub use view::NavState;
