pub mod compiling;
pub mod goldminer;
pub mod minesweeper;
pub mod snake;
pub mod tetris;
pub mod twenty_forty_eight;
