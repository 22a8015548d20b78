//! Power-transition brightness control: a debounced single-slot task
//! scheduler and the state machine that reacts to AC/DC power-source
//! changes, snapshots the outgoing brightness, and schedules a delayed
//! hardware write of the incoming condition's preferred brightness.

pub mod codec;
pub mod controller;
pub mod errors;
pub mod power;
pub mod scheduler;
pub mod settings;

pub use controller::TransitionController;
pub use errors::ControllerError;
pub use power::PowerCondition;
pub use scheduler::Command;
pub use scheduler::DebounceScheduler;
pub use settings::Settings;
