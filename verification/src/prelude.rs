//! The names that a scene is usually built with.

pub use crate::engine::graphics::buff_char::BuffChar;
pub use crate::engine::graphics::gdi::GDI;
pub use crate::engine::graphics::mesh::Mesh;
pub use crate::engine::graphics::mesh::MeshBuilder;
pub use crate::engine::graphics::meshes::MESHES;
pub use crate::engine::graphics::point::Point;
pub use crate::engine::graphics::rotation::Rotation;
pub use crate::engine::graphics::shape::Shape;
pub use crate::engine::graphics::size::Size;
pub use crate::engine::graphics::triangle::Triangle;
pub use crate::engine::graphics::vec2::Vec2;
pub use crate::engine::graphics::vec3::Vec3;
pub use crate::engine::math::matrices::Matrix;
pub use crate::engine::math::scalar::Scalar;
pub use crate::engine::rendering::ascii_buffer::ascii_from_level;
pub use crate::engine::rendering::ascii_buffer::AsciiBuffer;
pub use crate::engine::rendering::ascii_buffer::BufferError;
pub use crate::engine::rendering::ascii_buffer::ASCII_BRIGHTNESS;
pub use crate::engine::rendering::camera::Camera;
pub use crate::engine::rendering::camera::CameraBuilder;
pub use crate::engine::rendering::render_quality::RenderQuality;
pub use crate::engine::rendering::renderer::Band;
pub use crate::engine::rendering::renderer::Renderer;
pub use crate::engine::rendering::renderer::RendererBuilder;
pub use crate::engine::rendering::transferer::Outline;
pub use crate::engine::rendering::transferer::Transferer;
