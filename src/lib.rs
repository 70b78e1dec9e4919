pub mod image;
pub mod layers;
pub mod reaper;
pub mod rootless;
pub mod supervisor;
