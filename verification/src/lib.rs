pub mod food;
pub mod game;
pub mod snake;

pub use food::Food;
pub use game::Game;
pub use game::Key;
pub use snake::Direction;
pub use snake::Snake;
