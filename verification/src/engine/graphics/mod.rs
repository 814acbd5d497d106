pub mod buff_char;
pub mod gdi;
pub mod mesh;
pub mod meshes;
pub mod point;
pub mod rotation;
pub mod shape;
pub mod size;
pub mod triangle;
pub mod vec2;
pub mod vec3;
