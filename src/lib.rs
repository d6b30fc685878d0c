pub mod settings;
pub mod shutdown;
pub mod plan;
pub mod registrar;
pub mod identity;
pub mod bootstrap;
