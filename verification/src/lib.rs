//! The timing and parameter core of a real-time audio engine: exact musical and sample
//! time, the lock-free cells that publish a time from one thread to another, the
//! smoothing engine that ramps a parameter block by block, fixed-size block buffers,
//! and the filling of a block from recorded frames.
//!
//! Every function here is verified against its contract. The library holds no
//! floating-point arithmetic: the smoothing engine is handed the step from sample to
//! sample by its caller.

pub mod atomic_time;
pub mod block_buffer;
pub mod musical_time;
pub mod parameter;
pub mod pcm;
pub mod sample_time;
pub mod smooth;
pub mod super_time;
pub mod superclock_time;
pub mod timestamp;

pub use atomic_time::{AtomicMusicalTime, AtomicSuperclockTime};
pub use block_buffer::{MonoBlockBuffer, RealFrames, StereoBlockBuffer};
pub use musical_time::{MusicalTime, SUPER_BEAT_TICKS_PER_BEAT, SUPER_UNITS};
pub use parameter::Unit;
pub use sample_time::{FrameTime, Frames, SampleTime};
pub use smooth::{Smooth, SmoothOutput, SmoothStatus};
pub use super_time::{SuperFrames, SuperSampleTime, SUPER_SAMPLE_TICKS_PER_SECOND};
pub use superclock_time::SuperclockTime;
pub use timestamp::Timestamp;
