//! The decision-making core of a small GPU playground: a triangle drawn into a
//! window, an overlay that edits two colours and a blur-kernel size, and a shader
//! that is rebuilt whenever its source changes.
//!
//! Nothing here touches a window, a GPU or a file. Each component is a value that
//! records what has been configured, with functions that say what has to be done
//! next; the program around the library performs it, and hands back as plain
//! values what the file system and the device answered.

pub mod app;
pub mod color;
pub mod driver;
pub mod error;
pub mod frame;
pub mod gpu;
pub mod pipeline;
pub mod registry;
pub mod renderer;
pub mod viewport;
