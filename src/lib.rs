//! Verified core of the ION shared-memory allocator and the Cvitek TPU
//! driver: buffer registry and ioctl logic, DMA command-buffer parsing, and
//! the register sequences that drive the TDMA and TIU engines.

pub mod regs;
pub mod tpu_types;
pub mod tdma;
pub mod tiu;
pub mod tpu_error;
pub mod platform;
pub mod ion_error;
pub mod ion_types;
pub mod ion_buffer;
pub mod ion_heap;
pub mod ion_file;
pub mod ion_device;
pub mod tpu_device;
pub mod hexdump;
