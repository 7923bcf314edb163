pub mod abstract_factory;
pub mod builder;
pub mod factory;
pub mod prototype;
