pub mod amdgpu;
pub mod api;
pub mod defines;
pub mod device;
pub mod encoder;
pub mod error;
pub mod i915;
pub mod kgsl;
pub mod layout;
pub mod memory;
pub mod msm;
pub mod panthor;
pub mod protocol;
pub mod protocol_v1;
pub mod queue;
pub mod ring;
pub mod submit;
pub mod sync;
pub mod tracker;
pub mod traits;
pub mod virtgpu;
pub mod wddm;
pub mod wire;
pub mod xe;
