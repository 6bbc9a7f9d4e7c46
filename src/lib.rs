
pub mod brush;
pub mod color;
pub mod components;
pub mod events;
pub mod pipeline;
pub mod poly;
pub mod renderer;
pub mod settings;

pub use brush::Brush;
pub use color::StandardColorPalette as ColorPalette;
pub use renderer::Renderer;
pub use settings::{DataCollector, WindowSettings};
