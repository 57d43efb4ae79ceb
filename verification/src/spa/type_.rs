//! Basic SPA types: the type identifiers of pods and the small value structs.
use vstd::prelude::*;


use crate::error::Error;

verus! {

/// Namespace of the SPA type identifiers stored in the `type` field of a pod header.
pub struct Type;

impl Type {
    // Basic types
    pub const START: u32 = 0x00000;
    pub const NONE: u32 = 1;
    pub const BOOL: u32 = 2;
    pub const ID: u32 = 3;
    pub const INT: u32 = 4;
    pub const LONG: u32 = 5;
    pub const FLOAT: u32 = 6;
    pub const DOUBLE: u32 = 7;
    pub const STRING: u32 = 8;
    pub const BYTES: u32 = 9;
    pub const RECTANGLE: u32 = 10;
    pub const FRACTION: u32 = 11;
    pub const BITMAP: u32 = 12;
    pub const ARRAY: u32 = 13;
    pub const STRUCT: u32 = 14;
    pub const OBJECT: u32 = 15;
    pub const SEQUENCE: u32 = 16;
    pub const POINTER: u32 = 17;
    pub const FD: u32 = 18;
    pub const CHOICE: u32 = 19;
    pub const POD: u32 = 20;
    pub const LAST: u32 = 21;
    // Pointers
    pub const POINTER_START: u32 = 0x10000;
    pub const POINTER_BUFFER: u32 = 0x10001;
    pub const POINTER_META: u32 = 0x10002;
    pub const POINTER_DICT: u32 = 0x10003;
    pub const POINTER_LAST: u32 = 0x10004;
    // Events
    pub const EVENT_START: u32 = 0x20000;
    pub const EVENT_DEVICE: u32 = 0x20001;
    pub const EVENT_NODE: u32 = 0x20002;
    pub const EVENT_LAST: u32 = 0x20003;
    // Commands
    pub const COMMAND_START: u32 = 0x30000;
    pub const COMMAND_DEVICE: u32 = 0x30001;
    pub const COMMAND_NODE: u32 = 0x30002;
    pub const COMMAND_LAST: u32 = 0x30003;
    // Objects
    pub const OBJECT_START: u32 = 0x40000;
    pub const OBJECT_PROP_INFO: u32 = 0x40001;
    pub const OBJECT_PROPS: u32 = 0x40002;
    pub const OBJECT_FORMAT: u32 = 0x40003;
    pub const OBJECT_PARAM_BUFFERS: u32 = 0x40004;
    pub const OBJECT_PARAM_META: u32 = 0x40005;
    pub const OBJECT_PARAM_IO: u32 = 0x40006;
    pub const OBJECT_PARAM_PROFILE: u32 = 0x40007;
    pub const OBJECT_PARAM_PORT_CONFIG: u32 = 0x40008;
    pub const OBJECT_PARAM_ROUTE: u32 = 0x40009;
    pub const OBJECT_PROFILER: u32 = 0x4000a;
    pub const OBJECT_PARAM_LATENCY: u32 = 0x4000b;
    pub const OBJECT_PARAM_PROCESS_LATENCY: u32 = 0x4000c;
    pub const OBJECT_LAST: u32 = 0x4000d;
    // Vendor
    pub const VENDOR_PIPEWIRE: u32 = 0x02000000;
    pub const VENDOR_OTHER: u32 = 0x7f000000;
}

/// A time in seconds and nanoseconds (`timespec`).
#[derive(Debug, Clone, Copy, PartialEq, Eq, Structural)]
pub struct TimespecRef {
    pub tv_sec: i64,
    pub tv_nsec: i64,
}

impl TimespecRef {
    /// The time of `secs` whole seconds and `nanos` nanoseconds, as a duration gives them;
    /// the seconds must fit a signed 64-bit integer.
    pub fn from_secs_and_nanos(secs: u64, nanos: u32) -> (r: Result<TimespecRef, Error>)
        ensures
            secs <= i64::MAX ==> r == Ok::<TimespecRef, Error>(
                TimespecRef { tv_sec: secs as i64, tv_nsec: nanos as i64 },
            ),
            secs > i64::MAX ==> r matches Err(Error::WrongTimeFormat),
    {
        if secs > i64::MAX as u64 {
            return Err(Error::WrongTimeFormat);
        }
        Ok(TimespecRef { tv_sec: secs as i64, tv_nsec: nanos as i64 })
    }
}

/// Width and height of a rectangle (`spa_rectangle`).
#[derive(Debug, Clone, Copy, PartialEq, Eq, Structural)]
pub struct RectangleRef {
    pub width: u32,
    pub height: u32,
}

impl RectangleRef {
    pub fn new(width: u32, height: u32) -> (r: Self)
        ensures
            r.width == width,
            r.height == height,
    {
        RectangleRef { width, height }
    }

    pub fn width(&self) -> (w: u32)
        ensures
            w == self.width,
    {
        self.width
    }

    pub fn height(&self) -> (h: u32)
        ensures
            h == self.height,
    {
        self.height
    }

    pub fn set_width(&mut self, w: u32)
        ensures
            final(self).width == w,
            final(self).height == old(self).height,
    {
        self.width = w;
    }

    pub fn set_height(&mut self, h: u32)
        ensures
            final(self).height == h,
            final(self).width == old(self).width,
    {
        self.height = h;
    }

    pub fn set_value(&mut self, width: u32, height: u32)
        ensures
            final(self).width == width,
            final(self).height == height,
    {
        self.width = width;
        self.height = height;
    }
}

/// A point on a plane (`spa_point`).
#[derive(Debug, Clone, Copy, PartialEq, Eq, Structural)]
pub struct PointRef {
    pub x: i32,
    pub y: i32,
}

impl PointRef {
    pub fn new(x: i32, y: i32) -> (p: Self)
        ensures
            p.x == x,
            p.y == y,
    {
        PointRef { x, y }
    }

    pub fn x(&self) -> (x: i32)
        ensures
            x == self.x,
    {
        self.x
    }

    pub fn y(&self) -> (y: i32)
        ensures
            y == self.y,
    {
        self.y
    }

    pub fn set_x(&mut self, x: i32)
        ensures
            final(self).x == x,
            final(self).y == old(self).y,
    {
        self.x = x;
    }

    pub fn set_y(&mut self, y: i32)
        ensures
            final(self).y == y,
            final(self).x == old(self).x,
    {
        self.y = y;
    }

    pub fn set_value(&mut self, x: i32, y: i32)
        ensures
            final(self).x == x,
            final(self).y == y,
    {
        self.x = x;
        self.y = y;
    }
}

/// A rectangle placed at a position (`spa_region`).
#[derive(Debug, Clone, Copy, PartialEq, Eq, Structural)]
pub struct RegionRef {
    pub position: PointRef,
    pub size: RectangleRef,
}

impl RegionRef {
    pub fn new(position: PointRef, size: RectangleRef) -> (r: Self)
        ensures
            r.position == position,
            r.size == size,
    {
        RegionRef { position, size }
    }

    pub fn position(&self) -> (p: &PointRef)
        ensures
            *p == self.position,
    {
        &self.position
    }

    pub fn size(&self) -> (s: &RectangleRef)
        ensures
            *s == self.size,
    {
        &self.size
    }

    /// The position, for modification.
    pub fn position_mut(&mut self) -> (p: &mut PointRef)
        ensures
            *p == old(self).position,
            *final(self) == (RegionRef { position: *final(p), size: old(self).size }),
    {
        &mut self.position
    }

    /// The size, for modification.
    pub fn size_mut(&mut self) -> (s: &mut RectangleRef)
        ensures
            *s == old(self).size,
            *final(self) == (RegionRef { position: old(self).position, size: *final(s) }),
    {
        &mut self.size
    }

    pub fn set_value(&mut self, x: i32, y: i32, width: u32, height: u32)
        ensures
            final(self).position == (PointRef { x, y }),
            final(self).size == (RectangleRef { width, height }),
    {
        self.position = PointRef { x, y };
        self.size = RectangleRef { width, height };
    }
}

/// A fraction `num / denom` (`spa_fraction`).
#[derive(Debug, Clone, Copy, PartialEq, Eq, Structural)]
pub struct FractionRef {
    pub num: u32,
    pub denom: u32,
}

impl FractionRef {
    pub fn new(num: u32, denom: u32) -> (f: Self)
        ensures
            f.num == num,
            f.denom == denom,
    {
        FractionRef { num, denom }
    }

    pub fn num(&self) -> (n: u32)
        ensures
            n == self.num,
    {
        self.num
    }

    pub fn denom(&self) -> (d: u32)
        ensures
            d == self.denom,
    {
        self.denom
    }
}

/// The body of an event: the body type and id of its object.
#[derive(Debug, Clone, Copy, PartialEq, Eq, Structural)]
pub struct EventBodyRef {
    pub type_: u32,
    pub id: u32,
}

/// An event: a pod header and the event body.
#[derive(Debug, Clone, Copy, PartialEq, Eq, Structural)]
pub struct EventRef {
    pub size: u32,
    pub type_: u32,
    pub body: EventBodyRef,
}

/// The body of a command: the body type and id of its object.
#[derive(Debug, Clone, Copy, PartialEq, Eq, Structural)]
pub struct CommandBodyRef {
    pub type_: u32,
    pub id: u32,
}

/// A command: a pod header and the command body.
#[derive(Debug, Clone, Copy, PartialEq, Eq, Structural)]
pub struct CommandRef {
    pub size: u32,
    pub type_: u32,
    pub body: CommandBodyRef,
}

/// Buffers io area: the status of the exchange and the id of the buffer.
#[derive(Debug, Clone, Copy, PartialEq, Eq, Structural)]
pub struct IOBuffersRef {
    pub status: i32,
    pub buffer_id: u32,
}

/// Control types of sequences.
pub struct Control;

impl Control {
    pub const INVALID: u32 = 0;
    pub const PROPERTIES: u32 = 1;
    pub const MIDI: u32 = 2;
    pub const OSC: u32 = 3;
    pub const LAST: u32 = 4;
}

/// Device events.
pub struct EventDevice;

impl EventDevice {
    pub const START: u32 = 0;
    pub const OBJECT: u32 = 1;
    pub const PROPS: u32 = 2;
}

/// Node commands.
pub struct NodeCommand;

impl NodeCommand {
    pub const SUSPEND: u32 = 0;
    pub const PAUSE: u32 = 1;
    pub const START: u32 = 2;
    pub const ENABLE: u32 = 3;
    pub const DISABLE: u32 = 4;
    pub const FLUSH: u32 = 5;
    pub const DRAIN: u32 = 6;
    pub const MARKER: u32 = 7;
    pub const PARAM_BEGIN: u32 = 8;
    pub const PARAM_END: u32 = 9;
    pub const REQUEST_PROCESS: u32 = 10;
}

/// Node events.
pub struct NodeEvent;

impl NodeEvent {
    pub const ERROR: u32 = 0;
    pub const BUFFERING: u32 = 1;
    pub const REQUEST_REFRESH: u32 = 2;
    pub const REQUEST_PROCESS: u32 = 3;
}

/// Types of io areas.
pub struct IO;

impl IO {
    pub const INVALID: u32 = 0;
    pub const BUFFERS: u32 = 1;
    pub const RANGE: u32 = 2;
    pub const CLOCK: u32 = 3;
    pub const LATENCY: u32 = 4;
    pub const CONTROL: u32 = 5;
    pub const NOTIFY: u32 = 6;
    pub const POSITION: u32 = 7;
    pub const RATE_MATCH: u32 = 8;
    pub const MEMORY: u32 = 9;
}

impl From<(u32, u32)> for RectangleRef {
    fn from(value: (u32, u32)) -> (r: Self) {
        RectangleRef { width: value.0, height: value.1 }
    }
}

impl vstd::std_specs::convert::FromSpecImpl<(u32, u32)> for RectangleRef {
    open spec fn obeys_from_spec() -> bool {
        true
    }

    open spec fn from_spec(value: (u32, u32)) -> Self {
        RectangleRef { width: value.0, height: value.1 }
    }
}

impl From<(i32, i32)> for PointRef {
    fn from(value: (i32, i32)) -> (r: Self) {
        PointRef { x: value.0, y: value.1 }
    }
}

impl vstd::std_specs::convert::FromSpecImpl<(i32, i32)> for PointRef {
    open spec fn obeys_from_spec() -> bool {
        true
    }

    open spec fn from_spec(value: (i32, i32)) -> Self {
        PointRef { x: value.0, y: value.1 }
    }
}

impl From<(PointRef, RectangleRef)> for RegionRef {
    fn from(value: (PointRef, RectangleRef)) -> (r: Self) {
        RegionRef { position: value.0, size: value.1 }
    }
}

impl vstd::std_specs::convert::FromSpecImpl<(PointRef, RectangleRef)> for RegionRef {
    open spec fn obeys_from_spec() -> bool {
        true
    }

    open spec fn from_spec(value: (PointRef, RectangleRef)) -> Self {
        RegionRef { position: value.0, size: value.1 }
    }
}

impl From<(u32, u32)> for FractionRef {
    fn from(value: (u32, u32)) -> (r: Self) {
        FractionRef { num: value.0, denom: value.1 }
    }
}

impl vstd::std_specs::convert::FromSpecImpl<(u32, u32)> for FractionRef {
    open spec fn obeys_from_spec() -> bool {
        true
    }

    open spec fn from_spec(value: (u32, u32)) -> Self {
        FractionRef { num: value.0, denom: value.1 }
    }
}

} // verus!
