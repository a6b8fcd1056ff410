pub mod bytes;
pub mod graphics;
pub mod level;
pub mod map_object;
pub mod number;
pub mod options;
pub mod rendering;
pub mod types;
pub mod wad;
