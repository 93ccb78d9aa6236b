//! Extraction of a window of paired image and label records from MNIST IDX
//! data, with every step stated and proved against a model of the file bytes.

pub mod extract;
pub mod failure;
pub mod format;
pub mod header;
pub mod naming;
pub mod pixels;
pub mod raster;
pub mod render;
pub mod stream;
pub mod window;
