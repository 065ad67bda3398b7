pub mod command_buffer;
pub mod enums_types;
pub mod sparse_set;
pub mod state_machines;
pub mod registry;
pub mod combat;
pub mod projectile;
pub mod render_targets;
pub mod abilities;
pub mod spawn;
pub mod animation;
pub mod config;
pub mod sound;
pub mod assets;
pub mod archetypes;
pub mod skeleton;
pub mod grid;
pub mod hits;
pub mod input;
pub mod weapon_actions;
pub mod shader_source;
pub mod ability_ids;
pub mod text;
pub mod numbers;
pub mod bone_file;
pub mod model_file;
pub mod controls;
pub mod gizmo_meshes;
pub mod anim_commands;
