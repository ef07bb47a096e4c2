pub mod colors;
pub mod tile;
