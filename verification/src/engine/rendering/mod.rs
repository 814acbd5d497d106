pub mod ascii_buffer;
pub mod camera;
pub mod render_quality;
pub mod transferer;
pub mod renderer;
