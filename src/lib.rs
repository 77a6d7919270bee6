pub mod ids;
pub mod manager;
pub mod migration;
pub mod partition;
pub mod persistence;
pub mod schema;
pub mod startup;
pub mod types;
