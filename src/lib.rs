//! Input arbitration for spatial widgets: which input sources satisfy a
//! condition each frame, which single source holds an action, and the frame
//! logic of a grab handle and of a hover surface built on top of them.
//!
//! Input sources are named by stable integer handles, one per physical
//! device; the geometry and the per-frame classification of sources stay
//! with the caller, which hands the library the handles that satisfied each
//! condition.

pub mod grabbable;
pub mod hover_plane;
pub mod id_set;
pub mod input;
pub mod input_action;
pub mod single_actor_action;

pub use grabbable::{lemma_grab_round_trip, lemma_unheld_is_released, ContentParent, Grabbable, NodeOp, Placement};
pub use hover_plane::{HoverPlane, LineTarget};
pub use id_set::{id_set_difference, id_set_from, new_id_set, IdSet};
pub use input::{grab_trigger_key, interact_trigger_key, InputKind, InputSource};
pub use input_action::BaseInputAction;
pub use single_actor_action::SingleActorAction;
