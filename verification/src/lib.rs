//! Decision logic of a small Vulkan renderer, separated from the calls that
//! reach the GPU.
//!
//! The library never touches a device. It is handed what the platform
//! reported, as plain values, and answers with what to create, record, submit
//! or destroy next:
//!
//! * `instance`, `physical_device`, `queue_family`, `device` and `surface`
//!   select layers, extensions, the device and its queue family;
//! * `swapchain` negotiates format, present mode, extent and image count;
//! * `render_pass`, `graphics_pipeline`, `framebuffers`, `command_pool`,
//!   `sync_objects`, `buffer`, `vertex` and `uniform_buffer_object` describe
//!   the objects built on top of the swapchain;
//! * `frame` is the per-frame protocol of fence, acquire, submit and present,
//!   and `frame_laws` holds what is proved of it;
//! * `lifecycle` is the ownership tree, with the order of start-up, rebuild
//!   and teardown, and `lifecycle_laws` holds what is proved of it;
//! * `vulk_init` puts these together into the renderer, and `window` reacts
//!   to window events.

pub mod buffer;
pub mod command_pool;
pub mod constants;
pub mod device;
pub mod frame;
pub mod frame_laws;
pub mod framebuffers;
pub mod graphics_pipeline;
pub mod instance;
pub mod lifecycle;
pub mod lifecycle_laws;
pub mod physical_device;
pub mod queue_family;
pub mod render_pass;
pub mod surface;
pub mod swapchain;
pub mod sync_objects;
pub mod uniform_buffer_object;
pub mod utilities;
pub mod vertex;
pub mod vulk_init;
pub mod vulk_validation_layers;
pub mod window;
