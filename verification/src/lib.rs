//! A secondary-index layer over an embedded, transactional key-value engine.
//!
//! Records are stored as byte strings under a primary identifier in a single
//! primary relation, and additionally indexed by any number of named fields,
//! each backed by a multi-valued secondary relation (field value -> identifier).
//! One logical write touches the primary relation and every listed secondary
//! relation inside a single write transaction, so a reader sees either the
//! fully old or the fully new state, never a partial mix.

pub mod codec;
pub mod demo;
pub mod engine;
pub mod error;
pub mod laws;
pub mod model;
pub mod store;

pub use codec::encode_str;
pub use demo::check_veggies;
pub use engine::Db;
pub use error::MegadexDbError;
pub use model::StoreModel;
pub use store::MegadexDb;
