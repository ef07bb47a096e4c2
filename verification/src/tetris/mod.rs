pub mod blocks;
pub mod position;
pub mod tetris_block;
