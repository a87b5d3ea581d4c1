//! Tensors that live on a compute device: host memory or an accelerator.
//!
//! A [`Tensor`] is a shape, a scalar kind and strides over a [`Storage`]. A
//! `Storage` owns one allocation on one [`Device`] and can be migrated to
//! another device, by default through the host. The host backend is
//! [`CPU`]. Of an accelerator the library holds what is decided, in
//! [`webgpu`]: what to ask of its device and queue, in which order, and what
//! the answers mean. Whoever holds the device performs it.

pub mod alloc_mode;
pub mod buffer_id;
pub mod cpu;
pub mod device;
pub mod dtype;
pub mod layout;
pub mod shape;
pub mod storage;
pub mod tensor;
pub mod webgpu;

pub use alloc_mode::{AllocMode, BufferUsage};
pub use buffer_id::BufferID;
pub use cpu::{CPUPrim, CPU};
pub use device::{
    check_copy, copy_bytes, Device, DeviceAllocator, DeviceCopy, DeviceError, DevicePrimitive,
};
pub use dtype::{decode, encode, DType, F32Bits, F64Bits, TData};
pub use layout::{is_power_of_two, Layout, LayoutError};
pub use shape::{Shape, Strides};
pub use storage::{Storage, StorageError};
pub use tensor::{Tensor, TensorError};
pub use webgpu::{
    alloc_init_request, alloc_request, BackendChoice, BufferInitRequest, BufferRequest, Handshake,
    HandshakeAction, HandshakeEvent, ReadBack, ReadBackAction, ReadBackEvent,
};
