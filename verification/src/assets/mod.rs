//! The asset index, the sprite sheets and the textures of the game.
pub mod csv;
pub mod sprites;
pub mod index;
pub mod textures;
pub mod fonts;
pub mod terrain;
