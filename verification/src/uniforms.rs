//! The values that are handed to the fragment program with every frame.
//!
//! Time is kept in whole seconds and microseconds, as the clock gives it,
//! and the resolution in pixels. Turning them into the floating-point
//! uniforms is left to whoever sets them.
use vstd::prelude::*;

verus! {

/// The name of the uniform that holds the seconds since the start.
pub const TIME: &'static str = "iTime";

/// The name of the uniform that holds the framebuffer size in pixels.
pub const RESOLUTION: &'static str = "iResolution";

/// The name of the uniform that holds the seconds since the frame before.
pub const TIME_DELTA: &'static str = "iTimeDelta";

/// The name of the uniform that holds the frame counter.
pub const FRAME: &'static str = "iFrame";

/// Microseconds in a second.
pub const MICROS_PER_SECOND: u32 = 1_000_000;

/// The microseconds in `secs` seconds and `subsec_micros` microseconds.
pub open spec fn micros(secs: u64, subsec_micros: u32) -> int {
    secs * 1_000_000 + subsec_micros
}

/// What one frame is drawn with. Made anew for each redraw.
#[derive(Clone, Copy, Debug, PartialEq, Eq)]
pub struct FrameContext {
    /// Whole seconds since the start.
    pub secs: u64,
    /// The microseconds on top of `secs`. The time uniform is
    /// `secs + subsec_micros / 1_000_000`.
    pub subsec_micros: u32,
    /// Microseconds since the frame before; 0 for the first frame.
    pub delta_micros: u64,
    /// The framebuffer size in pixels: width, then height.
    pub res: (u32, u32),
    /// How many frames came before this one.
    pub frame_index: i32,
}

/// The value of a uniform, before it is turned into floating point.
#[derive(Clone, Copy, Debug, PartialEq, Eq, Structural)]
pub enum UniformValue {
    /// A span of time, for a `float` of seconds: whole seconds, and
    /// microseconds on top. In seconds it is `secs + micros / 1_000_000`.
    Seconds { secs: u64, micros: u64 },
    /// A size in pixels, for a `vec2`: width, then height.
    Pixels { width: u32, height: u32 },
    /// A count, for an `int`.
    Count(i32),
}

/// A uniform by name, with the value to set it to.
#[derive(Clone, Copy, Debug, PartialEq, Eq)]
pub struct Uniform {
    pub name: &'static str,
    pub value: UniformValue,
}

impl View for Uniform {
    type V = (Seq<char>, UniformValue);

    open spec fn view(&self) -> (Seq<char>, UniformValue) {
        (self.name@, self.value)
    }
}

impl FrameContext {
    /// The time of the frame, in microseconds since the start.
    pub open spec fn time(self) -> int {
        micros(self.secs, self.subsec_micros)
    }

    /// The uniforms of the frame, each with its name: the time, the
    /// resolution, the time since the frame before, and the frame counter.
    pub open spec fn uniform_set(self) -> Seq<(Seq<char>, UniformValue)> {
        seq![
            (TIME@, UniformValue::Seconds { secs: self.secs, micros: self.subsec_micros as u64 }),
            (RESOLUTION@, UniformValue::Pixels { width: self.res.0, height: self.res.1 }),
            (TIME_DELTA@, UniformValue::Seconds { secs: 0, micros: self.delta_micros }),
            (FRAME@, UniformValue::Count(self.frame_index)),
        ]
    }

    /// The uniforms to set for this frame. The time and the resolution are
    /// always among them.
    pub fn uniforms(&self) -> (set: Vec<Uniform>)
        ensures
            set@.map_values(|u: Uniform| u@) == self.uniform_set(),
    {
        let set = vec![
            Uniform {
                name: TIME,
                value: UniformValue::Seconds { secs: self.secs, micros: self.subsec_micros as u64 },
            },
            Uniform {
                name: RESOLUTION,
                value: UniformValue::Pixels { width: self.res.0, height: self.res.1 },
            },
            Uniform { name: TIME_DELTA, value: UniformValue::Seconds { secs: 0, micros: self.delta_micros } },
            Uniform { name: FRAME, value: UniformValue::Count(self.frame_index) },
        ];
        set
    }
}

/// The model of a `UniformPack`: the time of the frame before, in
/// microseconds, and the number of frames so far.
pub struct PackView {
    pub last: Option<int>,
    pub frames: int,
}

impl PackView {
    /// The microseconds from the frame before to `now`: 0 where there was no
    /// frame before or the clock went back, and no more than a `u64` holds.
    pub open spec fn delta(self, now: int) -> int {
        match self.last {
            None => 0,
            Some(last) => if now <= last {
                0
            } else if now - last > u64::MAX {
                u64::MAX as int
            } else {
                now - last
            },
        }
    }

    /// The frame context for a frame at the given time, with the given
    /// framebuffer size.
    pub open spec fn frame(self, secs: u64, subsec_micros: u32, framebuffer: (u32, u32)) -> FrameContext {
        FrameContext {
            secs,
            subsec_micros,
            delta_micros: self.delta(micros(secs, subsec_micros)) as u64,
            res: framebuffer,
            frame_index: self.frames as i32,
        }
    }

    /// The pack after a frame at the given time. The frame counter stops at
    /// the largest `i32`.
    pub open spec fn after(self, secs: u64, subsec_micros: u32) -> PackView {
        PackView {
            last: Some(micros(secs, subsec_micros)),
            frames: if self.frames < i32::MAX {
                self.frames + 1
            } else {
                i32::MAX as int
            },
        }
    }
}

/// Derives the per-frame values from the clock and the framebuffer size.
#[derive(Debug)]
pub struct UniformPack {
    last: Option<u128>,
    frames: i32,
}

impl View for UniformPack {
    type V = PackView;

    closed spec fn view(&self) -> PackView {
        PackView {
            last: match self.last {
                Some(last) => Some(last as int),
                None => None,
            },
            frames: self.frames as int,
        }
    }
}

impl UniformPack {
    /// The frame counter is in range.
    #[verifier::type_invariant]
    spec fn wf(self) -> bool {
        0 <= self.frames
    }

    /// A pack that has seen no frame yet.
    pub fn new() -> (pack: UniformPack)
        ensures
            pack@ == (PackView { last: None, frames: 0 }),
    {
        UniformPack { last: None, frames: 0 }
    }

    /// The values for the frame that is about to be drawn.
    ///
    /// `secs` and `subsec_micros` are the clock's reading: the time since
    /// the start. `framebuffer` is the size of the framebuffer as it is now,
    /// so that a resize shows in the very next frame.
    pub fn pack(&mut self, secs: u64, subsec_micros: u32, framebuffer: (u32, u32)) -> (frame: FrameContext)
        ensures
            frame == old(self)@.frame(secs, subsec_micros, framebuffer),
            final(self)@ == old(self)@.after(secs, subsec_micros),
    {
        proof {
            use_type_invariant(&*self);
        }
        let now: u128 = secs as u128 * 1_000_000 + subsec_micros as u128;
        let delta_micros: u64 = match self.last {
            None => 0,
            Some(last) => if now <= last {
                0
            } else if now - last > u64::MAX as u128 {
                u64::MAX
            } else {
                (now - last) as u64
            },
        };
        let frame = FrameContext {
            secs,
            subsec_micros,
            delta_micros,
            res: framebuffer,
            frame_index: self.frames,
        };
        self.last = Some(now);
        if self.frames < i32::MAX {
            self.frames = self.frames + 1;
        }
        frame
    }
}

/// The time uniform does not go back, and the resolution uniform is the
/// framebuffer size of the same frame: of two frames in a row, taken at
/// clock readings of which the second is not before the first, the second
/// has a time that is not before the first's, it counts the microseconds
/// between the two (as far as a `u64` holds them), and each has the
/// framebuffer size that was given for it.
pub proof fn lemma_time_does_not_go_back(
    pack: PackView,
    first: (u64, u32),
    first_size: (u32, u32),
    second: (u64, u32),
    second_size: (u32, u32),
)
    requires
        micros(first.0, first.1) <= micros(second.0, second.1),
    ensures
        ({
            let a = pack.frame(first.0, first.1, first_size);
            let b = pack.after(first.0, first.1).frame(second.0, second.1, second_size);
            &&& a.time() <= b.time()
            &&& a.res == first_size
            &&& b.res == second_size
            &&& b.time() - a.time() <= u64::MAX ==> b.delta_micros == b.time() - a.time()
        }),
{
}

/// Every frame sets the time and the resolution, and the resolution that it
/// sets is the framebuffer size that was given for the frame. No uniform
/// is set twice.
pub proof fn lemma_time_and_resolution_are_set(pack: PackView, secs: u64, subsec_micros: u32, size: (u32, u32))
    ensures
        ({
            let set = pack.frame(secs, subsec_micros, size).uniform_set();
            &&& set.contains((TIME@, UniformValue::Seconds { secs, micros: subsec_micros as u64 }))
            &&& set.contains((RESOLUTION@, UniformValue::Pixels { width: size.0, height: size.1 }))
            &&& forall|i: int, j: int| 0 <= i < j < set.len() ==> set[i].0 != set[j].0
        }),
{
    let set = pack.frame(secs, subsec_micros, size).uniform_set();
    reveal_strlit("iTime");
    reveal_strlit("iResolution");
    reveal_strlit("iTimeDelta");
    reveal_strlit("iFrame");
    assert(TIME@.len() == 5 && RESOLUTION@.len() == 11 && TIME_DELTA@.len() == 10 && FRAME@.len() == 6);
}

/// The frame counter starts at 0 and goes up by one with every frame,
/// until it reaches the largest `i32`, where it stays.
pub proof fn lemma_frames_are_counted(pack: PackView, first: (u64, u32), second: (u64, u32), size: (u32, u32))
    requires
        0 <= pack.frames <= i32::MAX,
    ensures
        (PackView { last: None, frames: 0 }).frame(first.0, first.1, size).frame_index == 0,
        ({
            let a = pack.frame(first.0, first.1, size);
            let b = pack.after(first.0, first.1).frame(second.0, second.1, size);
            b.frame_index == if a.frame_index < i32::MAX {
                a.frame_index + 1
            } else {
                i32::MAX as int
            }
        }),
{
}

} // verus!
