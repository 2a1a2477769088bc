pub mod clock;
pub mod codec;
pub mod error;
pub mod luma;
pub mod merge;
pub mod paths;
pub mod pipeline;
pub mod raster;
pub mod watch;
