pub mod devices;
pub mod panel;
pub mod response;
pub mod result;
