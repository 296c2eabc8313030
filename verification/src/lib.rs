pub mod background;
pub mod color;
pub mod hover;
pub mod plan;
pub mod task;
pub mod utils;
pub mod view;
