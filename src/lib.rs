//! Core of a small 2D platformer: kinematic entities with directional
//! sprite-sheet animation, Tiled map decoding, tileset atlas lookup and a
//! camera that follows the player and culls what it cannot see.
pub mod animation;
pub mod base64;
pub mod camera;
pub mod direction;
pub mod entity;
pub mod game;
pub mod geometry;
pub mod map;
pub mod tiled;



pub use animation::Animation;
pub use direction::Direction;


pub use geometry::{Point, Rect};
pub use camera::Camera;
pub use entity::{Entity, MoveableEntity, Player};
pub use game::{next_frame_count, Game, Updateable};
pub use map::{Tile, TileDraw, TileMap, Tileset};
pub use tiled::{DecodeError, Layer, TiledMap};
