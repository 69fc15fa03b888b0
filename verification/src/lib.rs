//! A grid of coloured glyphs and the arithmetic around it: placing text with
//! an anchor, addressing tiles, and mapping glyphs to cells of a tile sheet.

pub mod border;
pub mod code_page_437;
pub mod color;
pub mod entity;
pub mod formatting;
pub mod grid;
pub mod layout;
pub mod mesh;
pub mod point;
pub mod terminal;
pub mod tile;
pub mod to_world;
pub mod uv_mapping;

pub use border::Border;
pub use color::{ColorFormat, ColorFormatter};
pub use entity::{clear_after_render, ClearAfterRender};
pub use formatting::{FormattedString, StringFormatter, TileFormat, TileFormatter};
pub use mesh::MeshData;
pub use point::{GridPoint, Pivot, PivotedPoint, Side};
pub use terminal::{GridBounds, Terminal};
pub use tile::Tile;
pub use to_world::TileScaling;
pub use uv_mapping::{GridUvs, MappingId, MissingGlyphError, UvMapping, UvMappingPlugin};
