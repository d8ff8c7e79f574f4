use vstd::prelude::*;

verus! {

use crate::VisError;

/// Idle/Recording flag gating whether frames go downstream. It starts `Idle`
/// (or `Recording` right away in configurations without a toggle key) and,
/// once `Recording`, never returns to `Idle`.
#[derive(Clone, Copy, PartialEq, Eq, Structural, Debug)]
pub enum RecordingSession {
    Idle,
    Recording,
}

/// Lifecycle of the encoder's input stream: it opens once and closes once.
#[derive(Clone, Copy, PartialEq, Eq, Structural, Debug)]
pub enum SinkState {
    Unstarted,
    Open,
    Closed,
}

proof fn lemma_mul_le(a: int, b: int, amax: int, bmax: int)
    by (nonlinear_arith)
    requires
        0 <= a <= amax,
        0 <= b <= bmax,
    ensures
        a * b <= amax * bmax,
{
}

/// The accounting half of the encode sink. The child encoder process and its
/// byte pipe live outside the model; the surrounding program pairs every
/// transition recorded here with the matching operation on them: `open` with
/// the spawn, `record_write` with one blocking write plus flush of one whole
/// frame, `close` with end-of-stream plus a wait for the encoder's exit.
pub struct EncodeSink {
    pub state: SinkState,
    pub width: u64,
    pub height: u64,
    pub fps: u64,
    pub frames_received: u64,
    pub bytes_received: u128,
}

impl EncodeSink {
    /// Every frame is a row-major RGBA8 image: exactly `width * height * 4` bytes.
    pub open spec fn frame_size_spec(self) -> nat {
        (self.width * self.height * 4) as nat
    }

    /// Geometry is usable and the byte total is exactly what the frames add up to.
    pub open spec fn wf(self) -> bool {
        &&& 1 <= self.width
        &&& 1 <= self.height
        &&& 1 <= self.fps
        &&& self.width * self.height * 4 <= u64::MAX
        &&& self.bytes_received == self.frames_received * self.frame_size_spec()
    }

    /// A sink for `width x height` RGBA8 frames at `fps`; refused when the
    /// geometry is unusable: a zero dimension, a zero framerate, or a frame
    /// too large to measure in bytes.
    pub fn new(width: u64, height: u64, fps: u64) -> (r: Result<EncodeSink, VisError>)
        ensures
            r is Ok <==> (1 <= width && 1 <= height && 1 <= fps && width * height * 4
                <= u64::MAX),
            r matches Err(e) ==> e == VisError::InvalidGeometry,
            r matches Ok(s) ==> {
                &&& s.wf()
                &&& s.state == SinkState::Unstarted
                &&& s.width == width
                &&& s.height == height
                &&& s.fps == fps
                &&& s.frames_received == 0
                &&& s.bytes_received == 0
            },
    {
        if width == 0 || height == 0 || fps == 0 {
            return Err(VisError::InvalidGeometry);
        }
        proof {
            lemma_mul_le(width as int, height as int, u64::MAX as int, u64::MAX as int);
        }
        let wh: u128 = (width as u128) * (height as u128);
        if wh > (u64::MAX / 4) as u128 {
            return Err(VisError::InvalidGeometry);
        }
        Ok(EncodeSink { state: SinkState::Unstarted, width, height, fps, frames_received: 0, bytes_received: 0 })
    }

    /// The frame byte length the encoder expects, `width * height * 4`.
    pub fn frame_size(&self) -> (r: u64)
        requires
            self.wf(),
        ensures
            r as nat == self.frame_size_spec(),
    {
        self.width * self.height * 4
    }

    /// The stream opens: the caller has spawned the encoder. A failed spawn
    /// is fatal to the host program and never reaches this point.
    pub fn open(&mut self)
        requires
            old(self).wf(),
            old(self).state == SinkState::Unstarted,
        ensures
            final(self).wf(),
            *final(self) == (EncodeSink { state: SinkState::Open, ..*old(self) }),
    {
        self.state = SinkState::Open;
    }

    /// One whole frame of exactly `frame_size` bytes was written and flushed
    /// into the open stream, before the next frame is rendered.
    pub fn record_write(&mut self, len: u64)
        requires
            old(self).wf(),
            old(self).state == SinkState::Open,
            len as nat == old(self).frame_size_spec(),
            old(self).frames_received < u64::MAX,
        ensures
            final(self).wf(),
            final(self).state == old(self).state,
            final(self).width == old(self).width,
            final(self).height == old(self).height,
            final(self).fps == old(self).fps,
            final(self).frames_received == old(self).frames_received + 1,
            final(self).bytes_received == old(self).bytes_received + len,
    {
        proof {
            let f = self.frames_received as int;
            let s = self.frame_size_spec() as int;
            lemma_mul_le(f + 1, s, u64::MAX as int, u64::MAX as int);
            assert((f + 1) * s == f * s + s) by (nonlinear_arith);
        }
        self.frames_received = self.frames_received + 1;
        self.bytes_received = self.bytes_received + len as u128;
    }

    /// The stream closes, exactly once: end-of-stream is signalled and the
    /// caller then waits for the encoder process to finish its output file.
    pub fn close(&mut self)
        requires
            old(self).wf(),
            old(self).state == SinkState::Open,
        ensures
            final(self).wf(),
            *final(self) == (EncodeSink { state: SinkState::Closed, ..*old(self) }),
    {
        self.state = SinkState::Closed;
    }
}

/// Law: over any recording session the bytes a well-formed sink has received
/// are exactly `frames_received * width * height * 4`, so every frame handed
/// to it was one whole frame and nothing else went down the stream.
pub proof fn lemma_sink_bytes_conservation(s: EncodeSink)
    requires
        s.wf(),
    ensures
        s.bytes_received == s.frames_received * s.frame_size_spec(),
{
}

/// The loop either runs or is shutting down; shutdown is cooperative,
/// observed once per tick.
#[derive(Clone, Copy, PartialEq, Eq, Structural, Debug)]
pub enum LoopMode {
    Running,
    ShuttingDown,
}

/// The edges the loop observed this tick.
#[derive(Clone, Copy, PartialEq, Eq, Structural, Debug)]
pub struct TickInput {
    /// The start-recording key fired this tick.
    pub start_recording: bool,
    /// The surface asked to close before this tick ran.
    pub close_requested: bool,
}

/// What the surrounding program must do for the tick just decided.
#[derive(Clone, Copy, PartialEq, Eq, Structural, Debug)]
pub struct TickOutcome {
    /// Capture the just-presented frame and write it to the sink.
    pub capture: bool,
    /// The loop is done; the sink has been closed, stop ticking.
    pub shutdown: bool,
}

/// The decision core of the main loop: per tick it advances the recording
/// session, counts the frame sent (if any) into the sink, and performs the
/// one cooperative shutdown.
pub struct MainLoop {
    pub mode: LoopMode,
    pub session: RecordingSession,
    /// Ticks fully run so far.
    pub ticks: u64,
    /// The tick during which recording started, if it has.
    pub started_at: Option<u64>,
    pub frames_sent: u64,
    pub sink: EncodeSink,
}

impl MainLoop {
    pub open spec fn wf(self) -> bool {
        &&& self.sink.wf()
        &&& self.frames_sent == self.sink.frames_received
        &&& (self.mode is Running <==> self.sink.state is Open)
        &&& (self.mode is ShuttingDown <==> self.sink.state is Closed)
        &&& (self.session is Recording <==> self.started_at is Some)
        &&& match self.started_at {
            Some(t0) => t0 <= self.ticks && self.frames_sent == self.ticks - t0,
            None => self.frames_sent == 0,
        }
    }

    /// A loop over a freshly opened sink. With `record_from_start` the
    /// session records from tick 0; otherwise it waits for the toggle.
    pub fn new(sink: EncodeSink, record_from_start: bool) -> (r: MainLoop)
        requires
            sink.wf(),
            sink.state is Open,
            sink.frames_received == 0,
        ensures
            r.wf(),
            r.mode is Running,
            r.ticks == 0,
            r.frames_sent == 0,
            r.sink == sink,
            record_from_start ==> r.session is Recording && r.started_at == Some(0u64),
            !record_from_start ==> r.session is Idle && r.started_at is None,
    {
        MainLoop {
            mode: LoopMode::Running,
            session: if record_from_start {
                RecordingSession::Recording
            } else {
                RecordingSession::Idle
            },
            ticks: 0,
            started_at: if record_from_start {
                Some(0)
            } else {
                None
            },
            frames_sent: 0,
            sink,
        }
    }

    /// One pass of the loop. On a close request nothing else happens: the
    /// mode flips to `ShuttingDown` and the sink closes, exactly once, after
    /// the last written frame. Otherwise the toggle (if any) is applied, the
    /// frame is captured and counted exactly when the session records, and
    /// the tick completes. A frame is never captured while the session is
    /// `Idle`, and the write order has no gaps: one frame per recorded tick.
    pub fn tick(&mut self, input: TickInput) -> (out: TickOutcome)
        requires
            old(self).wf(),
            old(self).mode is Running,
            old(self).ticks < u64::MAX,
            old(self).frames_sent < u64::MAX,
        ensures
            final(self).wf(),
            final(self).sink.width == old(self).sink.width,
            final(self).sink.height == old(self).sink.height,
            final(self).sink.fps == old(self).sink.fps,
            out.capture ==> final(self).session is Recording,
            input.close_requested ==> {
                &&& out.shutdown
                &&& !out.capture
                &&& final(self).mode is ShuttingDown
                &&& final(self).sink.state is Closed
                &&& final(self).ticks == old(self).ticks
                &&& final(self).frames_sent == old(self).frames_sent
                &&& final(self).session == old(self).session
                &&& final(self).started_at == old(self).started_at
                &&& final(self).sink.bytes_received == old(self).sink.bytes_received
            },
            !input.close_requested ==> {
                &&& !out.shutdown
                &&& final(self).mode is Running
                &&& final(self).sink.state is Open
                &&& final(self).ticks == old(self).ticks + 1
                &&& out.capture == (old(self).session is Recording || input.start_recording)
                &&& final(self).session == (if out.capture {
                    RecordingSession::Recording
                } else {
                    RecordingSession::Idle
                })
                &&& final(self).frames_sent == old(self).frames_sent + (if out.capture {
                    1int
                } else {
                    0int
                })
                &&& final(self).sink.bytes_received == old(self).sink.bytes_received + (if out.capture {
                    old(self).sink.frame_size_spec()
                } else {
                    0nat
                })
                &&& final(self).started_at == (if old(self).started_at is Some {
                    old(self).started_at
                } else if input.start_recording {
                    Some(old(self).ticks)
                } else {
                    None::<u64>
                })
            },
    {
        if input.close_requested {
            self.mode = LoopMode::ShuttingDown;
            self.sink.close();
            TickOutcome { capture: false, shutdown: true }
        } else {
            if input.start_recording && self.session == RecordingSession::Idle {
                self.session = RecordingSession::Recording;
                self.started_at = Some(self.ticks);
            }
            let capture = self.session == RecordingSession::Recording;
            if capture {
                let len = self.sink.frame_size();
                self.sink.record_write(len);
                self.frames_sent = self.frames_sent + 1;
            }
            self.ticks = self.ticks + 1;
            TickOutcome { capture, shutdown: false }
        }
    }
}

/// Law: while the session is `Idle` nothing has been captured or written,
/// and once recording has started the frames sent are exactly one per tick
/// run from the starting tick on.
pub proof fn lemma_frames_track_ticks(l: MainLoop)
    requires
        l.wf(),
    ensures
        l.session is Idle ==> l.frames_sent == 0 && l.sink.bytes_received == 0,
        l.started_at matches Some(t0) ==> l.frames_sent == l.ticks - t0,
{
}

} // verus!
