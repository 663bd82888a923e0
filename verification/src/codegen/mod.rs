pub mod general;
pub mod record;
