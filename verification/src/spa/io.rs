//! Io areas shared between a node and its driver: clocks, positions, segments.
//! Floating point fields are held as their IEEE-754 bit patterns.
use vstd::prelude::*;
use vstd::slice::slice_subrange;

use crate::spa::type_::{FractionRef, RectangleRef};

verus! {

/// Shared memory area: status, size and address of the memory.
#[derive(Debug, Clone, Copy, PartialEq, Eq, Structural)]
pub struct IOMemoryRef {
    pub status: i32,
    pub size: u32,
    /// Address of the memory.
    pub data: u64,
}

/// A range of data, used to ask for more data.
#[derive(Debug, Clone, Copy, PartialEq, Eq, Structural)]
pub struct IORangeRef {
    pub offset: u64,
    pub min_size: u32,
    pub max_size: u32,
}

/// Flags of a clock.
pub struct ClockFlags;

impl ClockFlags {
    pub const FREEWHEEL: u32 = 1;
}

/// Clock information of a driver, updated each cycle.
#[derive(Debug, Clone, PartialEq, Eq)]
pub struct IOClockRef {
    /// Clock flags, see [ClockFlags].
    pub flags: u32,
    /// Unique clock id.
    pub id: u32,
    /// Clock name, without its NUL terminator.
    pub name: Vec<u8>,
    /// Time in nanoseconds against the monotonic clock.
    pub nsec: u64,
    /// Rate of the position.
    pub rate: FractionRef,
    /// Current position.
    pub position: u64,
    /// Duration of the current cycle.
    pub duration: u64,
    /// Delay between the position and the hardware.
    pub delay: i64,
    /// IEEE-754 bit pattern of the rate difference between the clock and the monotonic time.
    pub rate_diff: u64,
    /// Estimated time of the next wakeup in nanoseconds.
    pub next_nsec: u64,
}

impl IOClockRef {
    /// Clock flags, see [ClockFlags].
    pub fn flags(&self) -> (v: u32)
        ensures
            v == self.flags,
    {
        self.flags
    }

    /// Unique clock id.
    pub fn id(&self) -> (v: u32)
        ensures
            v == self.id,
    {
        self.id
    }

    /// Time in nanoseconds against the monotonic clock.
    pub fn nsec(&self) -> (v: u64)
        ensures
            v == self.nsec,
    {
        self.nsec
    }

    /// Rate of the position.
    pub fn rate(&self) -> (v: &FractionRef)
        ensures
            *v == self.rate,
    {
        &self.rate
    }

    /// Current position.
    pub fn position(&self) -> (v: u64)
        ensures
            v == self.position,
    {
        self.position
    }

    /// Duration of the current cycle.
    pub fn duration(&self) -> (v: u64)
        ensures
            v == self.duration,
    {
        self.duration
    }

    /// Delay between the position and the hardware.
    pub fn delay(&self) -> (v: i64)
        ensures
            v == self.delay,
    {
        self.delay
    }

    /// IEEE-754 bit pattern of the rate difference between the clock and the monotonic time.
    pub fn rate_diff(&self) -> (v: u64)
        ensures
            v == self.rate_diff,
    {
        self.rate_diff
    }

    /// Estimated time of the next wakeup in nanoseconds.
    pub fn next_nsec(&self) -> (v: u64)
        ensures
            v == self.next_nsec,
    {
        self.next_nsec
    }
}

/// Video size and frame rate of a driver.
#[derive(Debug, Clone, Copy, PartialEq, Eq, Structural)]
pub struct IOVideoSizeRef {
    /// Optional flags.
    pub flags: u32,
    /// Video stride in bytes.
    pub stride: u32,
    /// Video size.
    pub size: RectangleRef,
    /// Frame rate.
    pub framerate: FractionRef,
}

impl IOVideoSizeRef {
    /// Optional flags.
    pub fn flags(&self) -> (v: u32)
        ensures
            v == self.flags,
    {
        self.flags
    }

    /// Video stride in bytes.
    pub fn stride(&self) -> (v: u32)
        ensures
            v == self.stride,
    {
        self.stride
    }

    /// Video size.
    pub fn size(&self) -> (v: &RectangleRef)
        ensures
            *v == self.size,
    {
        &self.size
    }

    /// Frame rate.
    pub fn framerate(&self) -> (v: &FractionRef)
        ensures
            *v == self.framerate,
    {
        &self.framerate
    }
}

/// Latency reporting.
#[derive(Debug, Clone, Copy, PartialEq, Eq, Structural)]
pub struct IOLatencyRef {
    pub rate: FractionRef,
    pub min: u64,
    pub max: u64,
}

/// Flags of the bar information of a segment.
pub struct SegmentBarFlags;

impl SegmentBarFlags {
    pub const VALID: u32 = 1;
}

/// Bar and beat information of a segment.
#[derive(Debug, Clone, Copy, PartialEq, Eq, Structural)]
pub struct IOSegmentBarRef {
    /// Flags, see [SegmentBarFlags].
    pub flags: u32,
    /// Offset in the segment of this beat.
    pub offset: u32,
    /// IEEE-754 bit pattern of the time signature numerator.
    pub signature_num: u32,
    /// IEEE-754 bit pattern of the time signature denominator.
    pub signature_denom: u32,
    /// IEEE-754 bit pattern of the beats per minute.
    pub bpm: u64,
    /// IEEE-754 bit pattern of the current beat in the segment.
    pub beat: u64,
}

impl IOSegmentBarRef {
    /// Flags, see [SegmentBarFlags].
    pub fn flags(&self) -> (v: u32)
        ensures
            v == self.flags,
    {
        self.flags
    }

    /// Offset in the segment of this beat.
    pub fn offset(&self) -> (v: u32)
        ensures
            v == self.offset,
    {
        self.offset
    }

    /// IEEE-754 bit pattern of the time signature numerator.
    pub fn signature_num(&self) -> (v: u32)
        ensures
            v == self.signature_num,
    {
        self.signature_num
    }

    /// IEEE-754 bit pattern of the time signature denominator.
    pub fn signature_denom(&self) -> (v: u32)
        ensures
            v == self.signature_denom,
    {
        self.signature_denom
    }

    /// IEEE-754 bit pattern of the beats per minute.
    pub fn bpm(&self) -> (v: u64)
        ensures
            v == self.bpm,
    {
        self.bpm
    }

    /// IEEE-754 bit pattern of the current beat in the segment.
    pub fn beat(&self) -> (v: u64)
        ensures
            v == self.beat,
    {
        self.beat
    }
}

/// Flags of the video information of a segment.
pub struct SegmentVideoFlags;

impl SegmentVideoFlags {
    pub const VALID: u32 = 1;
    pub const INTERLACED: u32 = 2;
    pub const DROP_FRAME: u32 = 4;
    pub const PULL_DOWN: u32 = 8;
}

/// Video time code information of a segment.
#[derive(Debug, Clone, Copy, PartialEq, Eq, Structural)]
pub struct IOSegmentVideoRef {
    /// Flags, see [SegmentVideoFlags].
    pub flags: u32,
    /// Offset in the segment.
    pub offset: u32,
    /// Frame rate.
    pub framerate: FractionRef,
    /// Hours of the time code.
    pub hours: u32,
    /// Minutes of the time code.
    pub minutes: u32,
    /// Seconds of the time code.
    pub seconds: u32,
    /// Frames of the time code.
    pub frames: u32,
    /// Field count, for interlaced video.
    pub field_count: u32,
}

impl IOSegmentVideoRef {
    /// Flags, see [SegmentVideoFlags].
    pub fn flags(&self) -> (v: u32)
        ensures
            v == self.flags,
    {
        self.flags
    }

    /// Offset in the segment.
    pub fn offset(&self) -> (v: u32)
        ensures
            v == self.offset,
    {
        self.offset
    }

    /// Frame rate.
    pub fn framerate(&self) -> (v: &FractionRef)
        ensures
            *v == self.framerate,
    {
        &self.framerate
    }

    /// Hours of the time code.
    pub fn hours(&self) -> (v: u32)
        ensures
            v == self.hours,
    {
        self.hours
    }

    /// Minutes of the time code.
    pub fn minutes(&self) -> (v: u32)
        ensures
            v == self.minutes,
    {
        self.minutes
    }

    /// Seconds of the time code.
    pub fn seconds(&self) -> (v: u32)
        ensures
            v == self.seconds,
    {
        self.seconds
    }

    /// Frames of the time code.
    pub fn frames(&self) -> (v: u32)
        ensures
            v == self.frames,
    {
        self.frames
    }

    /// Field count, for interlaced video.
    pub fn field_count(&self) -> (v: u32)
        ensures
            v == self.field_count,
    {
        self.field_count
    }
}

/// Flags of a segment.
pub struct SegmentFlags;

impl SegmentFlags {
    pub const NO_POSITION: u32 = 1;
    pub const LOOPING: u32 = 2;
}

/// A segment: a part of the timeline that maps the position of a driver to a media position.
#[derive(Debug, Clone, Copy, PartialEq, Eq, Structural)]
pub struct IOSegmentRef {
    /// Version of the segment.
    pub version: u32,
    /// Flags, see [SegmentFlags].
    pub flags: u32,
    /// Value of the running time when the segment starts.
    pub start: u64,
    /// Duration of the segment; zero for an endless segment.
    pub duration: u64,
    /// IEEE-754 bit pattern of the playback rate.
    pub rate: u64,
    /// Media position at the start of the segment.
    pub position: u64,
    /// Bar and beat information.
    pub bar: IOSegmentBarRef,
    /// Video time code information.
    pub video: IOSegmentVideoRef,
}

impl IOSegmentRef {
    /// Version of the segment.
    pub fn version(&self) -> (v: u32)
        ensures
            v == self.version,
    {
        self.version
    }

    /// Flags, see [SegmentFlags].
    pub fn flags(&self) -> (v: u32)
        ensures
            v == self.flags,
    {
        self.flags
    }

    /// Value of the running time when the segment starts.
    pub fn start(&self) -> (v: u64)
        ensures
            v == self.start,
    {
        self.start
    }

    /// Duration of the segment; zero for an endless segment.
    pub fn duration(&self) -> (v: u64)
        ensures
            v == self.duration,
    {
        self.duration
    }

    /// IEEE-754 bit pattern of the playback rate.
    pub fn rate(&self) -> (v: u64)
        ensures
            v == self.rate,
    {
        self.rate
    }

    /// Media position at the start of the segment.
    pub fn position(&self) -> (v: u64)
        ensures
            v == self.position,
    {
        self.position
    }
}

/// Rate matching information between a follower and the driver.
#[derive(Debug, Clone, Copy, PartialEq, Eq, Structural)]
pub struct IORateMatchRef {
    pub delay: u32,
    pub size: u32,
    /// IEEE-754 bit pattern of the rate.
    pub rate: u64,
    pub flags: u32,
}

impl IOClockRef {
    /// Clock name, without its NUL terminator.
    pub fn name(&self) -> (v: &[u8])
        ensures
            v@ == self.name@,
    {
        self.name.as_slice()
    }
}

/// Control io area: the bytes of a sequence pod of controls.
#[derive(Debug, Clone, PartialEq, Eq)]
pub struct IOSequenceRef {
    pub sequence: Vec<u8>,
}

/// Maximum number of segments of a position.
pub const IO_POSITION_MAX_SEGMENTS: u32 = 8;

/// States of a position.
pub struct PositionState;

impl PositionState {
    pub const STOPPED: u32 = 0;
    pub const STARTING: u32 = 1;
    pub const RUNNING: u32 = 2;
}

/// The position information of a driver: its clock, video size, the offset of the
/// position, the state, and the segments of the timeline.
#[derive(Debug, Clone, PartialEq, Eq)]
pub struct IOPositionRef {
    pub clock: IOClockRef,
    pub video: IOVideoSizeRef,
    /// Offset of the position against the clock position.
    pub offset: i64,
    /// State of the position, see [PositionState].
    pub state: u32,
    /// Number of valid segments.
    pub n_segments: u32,
    /// The segment slots.
    pub segments: Vec<IOSegmentRef>,
}

impl IOPositionRef {
    /// The clock of the driver.
    pub fn clock(&self) -> (v: &IOClockRef)
        ensures
            *v == self.clock,
    {
        &self.clock
    }

    /// The video size of the driver.
    pub fn video(&self) -> (v: &IOVideoSizeRef)
        ensures
            *v == self.video,
    {
        &self.video
    }

    /// Offset of the position against the clock position.
    pub fn offset(&self) -> (v: i64)
        ensures
            v == self.offset,
    {
        self.offset
    }

    /// State of the position, see [PositionState].
    pub fn state(&self) -> (v: u32)
        ensures
            v == self.state,
    {
        self.state
    }

    /// The valid segments: as many as recorded, at most the maximum number of segments.
    /// The segment slots must hold them.
    pub fn segments(&self) -> (v: &[IOSegmentRef])
        requires
            (if self.n_segments < IO_POSITION_MAX_SEGMENTS {
                self.n_segments
            } else {
                IO_POSITION_MAX_SEGMENTS
            }) <= self.segments@.len(),
        ensures
            v@ == self.segments@.subrange(
                0,
                (if self.n_segments < IO_POSITION_MAX_SEGMENTS {
                    self.n_segments
                } else {
                    IO_POSITION_MAX_SEGMENTS
                }) as int,
            ),
    {
        let n = if self.n_segments < IO_POSITION_MAX_SEGMENTS {
            self.n_segments
        } else {
            IO_POSITION_MAX_SEGMENTS
        };
        slice_subrange(self.segments.as_slice(), 0, n as usize)
    }
}

} // verus!
