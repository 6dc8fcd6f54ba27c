pub mod query;
pub mod record;
