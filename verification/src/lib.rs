pub mod model;
pub mod world;

pub use model::ALIVE;
pub use model::DEAD;
pub use world::World;
