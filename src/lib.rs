pub mod lorem;
pub mod session;
pub mod stats;
pub mod text;
