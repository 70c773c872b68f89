pub mod loop_node;
pub mod blend_node;
pub mod clip_node;
pub mod chain_node;
pub mod extend_skeleton;
pub mod graph_node;
pub mod speed_node;
pub mod flip_lr_node;
pub mod arithmetic;

