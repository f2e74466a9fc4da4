//! Discrete game logic of a katamari simulation: controller input, prince gachas,
//! flips, view modes and turns, camera modes, katamari contact, climbing, vaulting,
//! braking, incline and stuckness state, animation selection, the surface-contact
//! history and the prop list.
pub mod input;
pub mod camera;
pub mod flags;
pub mod mission;
pub mod prince;
pub mod katamari;
pub mod animation;
pub mod props;
pub mod history;
pub mod player;
