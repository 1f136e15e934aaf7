//! Text-art conversion: luminance quantization, grid assembly, resize policy
//! and rendering buffers, each with a verified contract.

mod canvas;
mod glyph;
mod grid;
mod naming;
mod raster;

pub use canvas::{Canvas, row_offset, CELL_SIZE};
pub use glyph::{pixel_to_asci, GlyphLevel};
pub use grid::Grid;
pub use naming::{output_name, png_name};
pub use raster::{LumaImage, target_dims};
