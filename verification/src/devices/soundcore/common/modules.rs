pub mod flag;
pub mod module_collection;
