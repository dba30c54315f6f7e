//! A structural model of a 3x3x3 twisty cube puzzle: its 26 movable
//! sub-cubes ("cubies"), their colored stickers, and read-only geometric
//! views (faces, rows, columns, corners) over one fixed storage layout.

pub mod cube;
