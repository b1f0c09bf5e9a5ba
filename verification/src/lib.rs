pub mod compare;
pub mod dims;
pub mod errors;
pub mod gpu;
pub mod layout;
pub mod loader;
pub mod pixels;
pub mod transfer;
