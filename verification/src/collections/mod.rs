//! The containers that the database is built from.
pub mod copies;
pub mod id_map;
pub mod name_index;
pub mod name_map;
pub mod seq_map;
