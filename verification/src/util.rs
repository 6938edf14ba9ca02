pub mod contentrenderer;
pub mod misc;
pub mod storage;
pub mod text;
