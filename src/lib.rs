pub mod value;
pub mod dispatch;
pub mod color;
pub mod timeline;
pub mod scene;
pub mod runtime;
