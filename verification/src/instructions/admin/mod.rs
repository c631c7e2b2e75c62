pub mod initialize;
pub mod update_royalty;

pub use self::initialize::{initialize, Initialize, InitializeEvent};
pub use self::update_royalty::{update_royalty, UpdateRoyalty};
