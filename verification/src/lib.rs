//! Scheduling and convergence detection for nine periodic oscillators.
//!
//! Each oscillator fires once per period. A fire plays a cue and makes the
//! oscillator flash for a short window. When all nine flash at once the
//! session is armed, and it ends once a grace period has passed.
//!
//! Time is a `u64` count of nanoseconds since the session began. The library
//! reads no clock, plays no sound and starts no thread: its caller tells it
//! the time and carries out what it decides.
//!
//! - [`note`]: the nine identities, their rates and their cue samples.
//! - [`oscillator`]: one oscillator, its due time and its fires.
//! - [`scheduler`]: the nine oscillators checked by one loop, frame by frame.
//! - [`channel`]: the queue between the oscillators' timers and the consumer.
//! - [`dispatcher`]: the consumer of fires, with its cache of cues.
//! - [`recency`]: the last fire of each oscillator, and who is flashing.
//! - [`convergence`]: idle, armed, over.

pub mod channel;
pub mod convergence;
pub mod dispatcher;
pub mod error;
pub mod note;
pub mod note_map;
pub mod oscillator;
pub mod recency;
pub mod scheduler;
pub mod time;

pub use channel::EventChannel;
pub use convergence::{ConvergenceDetector, Phase};
pub use dispatcher::CueDispatcher;
pub use error::{ConfigError, DispatchError};
pub use note::{Note, NoteBank};
pub use oscillator::{FireEvent, Oscillator};
pub use recency::RecencyTracker;
pub use scheduler::Scheduler;
