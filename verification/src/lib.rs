//! A stylized cel-shading ("toon") material layer for retained-mode scene
//! graphs: a fixed palette of highlight/shadow colors keyed by time of day
//! and weather, a builder that resolves that palette into an immutable
//! shader configuration, and a deferred migration driver that swaps each
//! tagged entity's standard material for an extended material carrying
//! that configuration, exactly once, as soon as the entity's assets are
//! ready.

pub mod color;
pub mod components;
pub mod migration;
pub mod plugin;

pub use color::{mix_colors, Rgba};
pub use components::{lookup, TimeOfDay, Weather, WindWakerShader, WindWakerShaderBuilder};
pub use migration::{
    EntityRecord, ExtendedMaterialRecord, MigrationEvent, MigrationWorld, PollSnapshot,
    SceneStatus,
};
pub use plugin::WindWakerShaderPlugin;
