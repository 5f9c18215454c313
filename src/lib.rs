pub mod assets;
pub mod dock;
pub mod hierarchy;
pub mod state;
pub mod tabs;
