//! Verified core of a small cooperative microcontroller operating system:
//! a peripheral-DMA channel engine with clock-gating refcount, the kernel's
//! driver dispatch and scheduling decisions, and the flash application image
//! format (TBF) with its offline builder and boot-time loader.

pub mod bytes;
pub mod crt0;
pub mod dma;
pub mod engine;
pub mod image;
pub mod kernel;
pub mod loader;
pub mod platform;
pub mod process;
pub mod refcount;
pub mod regs;
pub mod tbf;
