//! An in-process log sink that retains the most recent records in a
//! fixed-capacity buffer, together with the pieces of its read-only HTTP
//! exposure that are pure computation: severity filtering, self-exclusion,
//! FIFO eviction, snapshotting, JSON rendering and CORS response shaping.

mod buffer;
mod http;
mod item;
mod json;
mod level;
mod settings;
mod sink;
mod text;

pub use http::CORS;
pub use http::HttpResponse;
pub use http::has_cors_headers;
pub use http::header_view;
pub use http::index;
pub use http::logs;
pub use http::respond_index;
pub use http::respond_logs;
pub use item::ItemModel;
pub use item::LogItem;
pub use json::escape_char;
pub use json::escaped;
pub use json::json_array;
pub use json::json_item;
pub use json::json_items;
pub use json::render_logs;
pub use level::Level;
pub use settings::Settings;
pub use sink::LogServer;
pub use sink::lemma_fifo_retention;
pub use sink::push_evict;
pub use sink::record_all;
pub use sink::self_excluded;
pub use text::contains_sub;
pub use text::seq_contains;
pub use text::str_eq;
