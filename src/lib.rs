//! A staged, double-buffered frame pipeline for an immediate-mode GPU
//! renderer: frame pacing over two in-flight resource slots, the world
//! exchange around the extract stage, and deterministic layered draw order.
pub mod assets;
pub mod command;
pub mod exchange;
pub mod frame;
pub mod prepare;
pub mod resources;
pub mod schedule;
pub mod svg_loader;
pub mod text;
pub mod vector;

pub use assets::{extract_vec_img_render_assets, AssetEvent, AssetUpdates};
pub use command::{RenderCommand, RenderLayer, RenderType};
pub use exchange::{lend_render_world, reclaim_render_world, RenderWorld, ScratchRenderWorld};
pub use frame::{RenderFrame, SLOT_COUNT};
pub use prepare::{execute_render_command, prepare_frame, DrawContext};
pub use resources::{RenderResources, ResourceSlot, SlotState};
pub use schedule::{PietRenderStage, StageScheduler};
pub use svg_loader::SvgAssetLoader;
pub use text::{extract_text_labels, prepare_text_labels, ExtractedTextLabel, ExtractedTextLabels, TextLabel};
pub use vector::{extract_vec_img_instances, prepare_vector_images, sort_instances, ExtractedVecImgInstance, ExtractedVecImgInstances};
