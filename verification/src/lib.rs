//! The logic of a service that renders stick-figure files to PNG images:
//! how an upload is checked, named, rendered, stored and answered, and how
//! frames and pixels are laid out on their way to and from the GPU.

pub mod config;
pub mod form;
pub mod frame;
pub mod ident;
pub mod links;
pub mod pages;
pub mod png;
pub mod readback;
pub mod serve;
pub mod status;
pub mod store;
pub mod upload;
