//! The logic of a hardware ray-tracing renderer, apart from the device
//! calls: packed instance records, memory-type choice, buffer and image
//! descriptions, the two-level acceleration-structure build, the pipeline's
//! layout and shader groups, the descriptor set, teardown order, and the
//! per-frame decisions. The caller performs each device call with the
//! values these functions give and hands back the handles it gets.
pub mod accel;
pub mod descriptor;
pub mod frame;
pub mod instance;
pub mod memory;
pub mod pipeline;
pub mod resource;
pub mod scene;
