//! A rendering hardware interface's resource-lifetime and synchronisation
//! core: generational handles, the descriptor table, the queue of deferred
//! destructions, the ring of frames in flight, and the policies by which a
//! backend picks its device and its swapchain.

pub mod commands;
pub mod descriptor_table;
pub mod destruction_queue;
pub mod device;
pub mod error;
pub mod frame_ring;
pub mod handle;
pub mod handle_pool;
pub mod key_code;
pub mod memory;
pub mod pipeline;
pub mod resources;
pub mod shader;
pub mod surface;
pub mod texture;
pub mod timeline;
pub mod vulkan;
