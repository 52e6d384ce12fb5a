pub mod json;
pub mod primitives;
pub mod signed_data_verifier;
mod jose;
