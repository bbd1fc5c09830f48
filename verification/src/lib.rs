//! A collection of small verified components: an event-sourcing aggregate
//! core with optimistic concurrency checks, validated value types, in-memory
//! repositories, and hand-written parsers.

pub mod aggregate;
pub mod collections;
pub mod config;
pub mod config_path;
pub mod convert;
pub mod dates;
pub mod dispatch;
pub mod dlist;
pub mod email;
pub mod facts;
pub mod format_spec;
pub mod geometry;
pub mod guessing;
pub mod linked_list;
pub mod maps;
pub mod post;
pub mod postdata;
pub mod random;
pub mod stream;
pub mod text;
pub mod trinity;
pub mod userdata;
pub mod users;
