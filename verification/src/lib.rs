//! A small person-registry library: payload validation, the stack
//! storage codec, row-to-DTO mapping, and the request decision logic
//! of a create/read/search HTTP service over a relational store.
//!
//! The modules hold the verified logic only; process wiring (HTTP
//! server, database pool, environment) lives outside the library and
//! exchanges plain values with it.

pub mod codec;
pub mod config;
pub mod controller;
pub mod dto;
pub mod errors;
pub mod strutil;
pub mod validation;

pub use config::Config;
pub use config::ConfigError;
pub use config::config;
pub use controller::ApiResponse;
pub use controller::InsertCommand;
pub use controller::create_user;
pub use controller::get_pessoas_by_search_term;
pub use controller::get_user;
pub use controller::parse_person_id;
pub use dto::CriarPessoaDTO;
pub use dto::PersonRow;
pub use dto::PessoaDTO;
pub use dto::PessoaQuery;
pub use dto::RowStack;
pub use errors::ApiError;
