//! Native display presentation: the frame lifecycle of each output, the
//! attribution of page flips to outputs, and the choices made while a
//! device is brought up.
use vstd::prelude::*;

use crate::closed::{lowercased, to_lowercase};
use crate::drm_topology::{
    assigned, connectors_sorted, crtcs_sorted, AssignedOutput, ConnectorModel, ConnectorState,
    CrtcModel, DrmTopology, TopologyAssignment, TopologyConnector, TopologyCrtc, TopologyMode,
    TopologyModel,
};

verus! {

/// Errors during native backend initialization.
#[derive(Debug, PartialEq, Eq)]
pub enum DrmBackendError {
    NoDevice,
    Session(String),
    Drm(String),
    Egl(String),
}

impl DrmBackendError {
    /// What the error is about.
    pub open spec fn text(self) -> Seq<char> {
        match self {
            DrmBackendError::NoDevice => "no usable DRM device found at /dev/dri/card*"@,
            DrmBackendError::Session(e) => "session: "@ + e@,
            DrmBackendError::Drm(e) => "DRM: "@ + e@,
            DrmBackendError::Egl(e) => "EGL: "@ + e@,
        }
    }

    /// The message shown for the error.
    pub fn message(&self) -> (r: String)
        ensures
            r@ == self.text(),
    {
        match self {
            DrmBackendError::NoDevice => {
                "no usable DRM device found at /dev/dri/card*".to_owned()
            },
            DrmBackendError::Session(e) => {
                let mut out = "session: ".to_owned();
                out.append(e.as_str());
                out
            },
            DrmBackendError::Drm(e) => {
                let mut out = "DRM: ".to_owned();
                out.append(e.as_str());
                out
            },
            DrmBackendError::Egl(e) => {
                let mut out = "EGL: ".to_owned();
                out.append(e.as_str());
                out
            },
        }
    }
}

/// One output's frame lifecycle state.
#[derive(Debug, Clone, Copy, PartialEq, Eq, Structural)]
pub enum OutputFrameState {
    /// No frame in flight.
    Idle,
    /// The renderer is drawing into the output's buffer.
    Rendering,
    /// The frame was handed over, without an armed flip.
    Submitted,
    /// Page flip armed; awaiting its completion event.
    FlipPending,
}

/// Illegal lifecycle transition.
#[derive(Debug, Clone, Copy, PartialEq, Eq, Structural)]
pub enum FrameStateError {
    DoubleBegin,
    BeginDuringFlip,
    SubmitWithoutBegin,
}

/// The state after a frame is begun.
pub open spec fn begun(s: OutputFrameState) -> Result<OutputFrameState, FrameStateError> {
    match s {
        OutputFrameState::Idle | OutputFrameState::Submitted => Ok(OutputFrameState::Rendering),
        OutputFrameState::Rendering => Err(FrameStateError::DoubleBegin),
        OutputFrameState::FlipPending => Err(FrameStateError::BeginDuringFlip),
    }
}

/// The state after a frame is submitted.
pub open spec fn submitted(s: OutputFrameState) -> Result<OutputFrameState, FrameStateError> {
    if s == OutputFrameState::Rendering {
        Ok(OutputFrameState::Submitted)
    } else {
        Err(FrameStateError::SubmitWithoutBegin)
    }
}

/// The state after a flip is armed.
pub open spec fn armed(s: OutputFrameState) -> Result<OutputFrameState, FrameStateError> {
    if s == OutputFrameState::Submitted {
        Ok(OutputFrameState::FlipPending)
    } else {
        Err(FrameStateError::SubmitWithoutBegin)
    }
}

/// Whether a flip event completes anything.
pub open spec fn completes(s: OutputFrameState) -> bool {
    s == OutputFrameState::FlipPending || s == OutputFrameState::Submitted
}

impl OutputFrameState {
    pub fn begin(self) -> (r: Result<Self, FrameStateError>)
        ensures
            r == begun(self),
    {
        match self {
            OutputFrameState::Idle | OutputFrameState::Submitted => Ok(OutputFrameState::Rendering),
            OutputFrameState::Rendering => Err(FrameStateError::DoubleBegin),
            OutputFrameState::FlipPending => Err(FrameStateError::BeginDuringFlip),
        }
    }

    pub fn submit(self) -> (r: Result<Self, FrameStateError>)
        ensures
            r == submitted(self),
    {
        match self {
            OutputFrameState::Rendering => Ok(OutputFrameState::Submitted),
            _ => Err(FrameStateError::SubmitWithoutBegin),
        }
    }

    pub fn arm_flip(self) -> (r: Result<Self, FrameStateError>)
        ensures
            r == armed(self),
    {
        match self {
            OutputFrameState::Submitted => Ok(OutputFrameState::FlipPending),
            _ => Err(FrameStateError::SubmitWithoutBegin),
        }
    }

    /// Whether a flip-completion event for this output completes a frame.
    /// A spurious event with nothing pending is none.
    pub fn flip_complete(self) -> (r: bool)
        ensures
            r == completes(self),
    {
        match self {
            OutputFrameState::FlipPending | OutputFrameState::Submitted => true,
            _ => false,
        }
    }

    /// A disconnected output's lifecycle ends: no flip event will ever
    /// arrive for it.
    pub fn force_idle(self) -> (r: Self)
        ensures
            r == OutputFrameState::Idle,
    {
        OutputFrameState::Idle
    }
}

/// The only way through a frame is begin, submit, arm, complete; from
/// idle it leads back to idle, and no step can be left out.
pub proof fn law_frame_lifecycle(s: OutputFrameState)
    ensures
        begun(OutputFrameState::Idle) == Ok::<OutputFrameState, FrameStateError>(
            OutputFrameState::Rendering,
        ),
        begun(s) matches Ok(b) ==> submitted(b) == Ok::<OutputFrameState, FrameStateError>(
            OutputFrameState::Submitted,
        ) && armed(OutputFrameState::Submitted) == Ok::<OutputFrameState, FrameStateError>(
            OutputFrameState::FlipPending,
        ) && completes(OutputFrameState::FlipPending),
        armed(s) is Ok ==> submitted(s) is Err,
        begun(s) is Err ==> s == OutputFrameState::Rendering || s == OutputFrameState::FlipPending,
        submitted(s) is Ok <==> s == OutputFrameState::Rendering,
{
}

/// One output's presentation state.
#[derive(Debug, Clone, Copy, PartialEq, Eq)]
pub struct OutputPresentation {
    /// The CRTC that drives the output.
    pub crtc: u32,
    pub frame_state: OutputFrameState,
    /// The buffer bound for the frame: its name, its stride and its height.
    pub current_buffer: Option<(u64, u32, u32)>,
    pub width: u32,
    pub height: u32,
}

/// Why presenting a frame failed.
#[derive(Debug, Clone, Copy, PartialEq, Eq, Structural)]
pub enum PresentError {
    NoSuchOutput,
    State(FrameStateError),
}

/// What retiring a flipped buffer gave.
#[derive(Debug, Clone, Copy, PartialEq, Eq, Structural)]
pub enum Retirement {
    /// A buffer went back to the swapchain.
    Retired,
    /// There was no buffer to retire.
    Nothing,
    /// The swapchain failed.
    Failed,
}

/// A page-flip event: the CRTC it names, and what retiring its buffer
/// gives if it is attributed to an output.
#[derive(Debug, Clone, Copy, PartialEq, Eq, Structural)]
pub struct FlipEvent {
    pub crtc: u32,
    pub retirement: Retirement,
}

/// The outputs of a device and the assignment they were built from.
#[derive(Debug)]
pub struct DrmGraphicsBackend {
    pub outputs: Vec<OutputPresentation>,
    pub assignment: TopologyAssignment,
    pub frame_seq: u64,
}

/// Position of the first output of the CRTC, or the length.
pub open spec fn crtc_index(s: Seq<OutputPresentation>, crtc: u32) -> int
    decreases s.len(),
{
    if s.len() == 0 || s[0].crtc == crtc {
        0
    } else {
        1 + crtc_index(s.drop_first(), crtc)
    }
}

proof fn lemma_crtc_index(s: Seq<OutputPresentation>, crtc: u32, i: int)
    requires
        0 <= i <= s.len(),
        forall|j: int| 0 <= j < i ==> (#[trigger] s[j]).crtc != crtc,
        i < s.len() ==> s[i].crtc == crtc,
    ensures
        crtc_index(s, crtc) == i,
    decreases s.len(),
{
    if i > 0 {
        assert(s[0].crtc != crtc);
        let rest = s.drop_first();
        assert forall|j: int| 0 <= j < i - 1 implies (#[trigger] rest[j]).crtc != crtc by {
            assert(rest[j] == s[j + 1]);
        }
        lemma_crtc_index(rest, crtc, i - 1);
    }
}

proof fn lemma_crtc_index_bounds(s: Seq<OutputPresentation>, crtc: u32)
    ensures
        0 <= crtc_index(s, crtc) <= s.len(),
        crtc_index(s, crtc) < s.len() ==> s[crtc_index(s, crtc)].crtc == crtc,
    decreases s.len(),
{
    if s.len() > 0 && s[0].crtc != crtc {
        lemma_crtc_index_bounds(s.drop_first(), crtc);
    }
}

/// Whether an event completes the frame of the output it names.
pub open spec fn event_completes(s: Seq<OutputPresentation>, e: FlipEvent) -> bool {
    let i = crtc_index(s, e.crtc);
    i < s.len() && completes(s[i].frame_state) && e.retirement == Retirement::Retired
}

/// The outputs after one event: only the output of the event's CRTC is
/// touched, and only if the event completes its frame.
pub open spec fn after_event(s: Seq<OutputPresentation>, e: FlipEvent) -> Seq<OutputPresentation> {
    let i = crtc_index(s, e.crtc);
    if event_completes(s, e) {
        s.update(i, OutputPresentation { frame_state: OutputFrameState::Idle, ..s[i] })
    } else {
        s
    }
}

/// The outputs after the first `n` events.
pub open spec fn after_events(
    s: Seq<OutputPresentation>,
    events: Seq<FlipEvent>,
    n: int,
) -> Seq<OutputPresentation>
    decreases n,
{
    if n <= 0 {
        s
    } else {
        after_event(after_events(s, events, n - 1), events[n - 1])
    }
}

/// Whether one of the first `n` events completes a frame.
pub open spec fn some_completes(
    s: Seq<OutputPresentation>,
    events: Seq<FlipEvent>,
    n: int,
) -> bool
    decreases n,
{
    n > 0 && (some_completes(s, events, n - 1) || event_completes(
        after_events(s, events, n - 1),
        events[n - 1],
    ))
}

/// Whether an output awaits a flip.
pub open spec fn flip_awaited(s: Seq<OutputPresentation>) -> bool {
    exists|i: int| 0 <= i < s.len() && (#[trigger] s[i]).frame_state == OutputFrameState::FlipPending
}

impl DrmGraphicsBackend {
    /// A backend with one output, nothing presented yet.
    pub fn with_output(
        crtc: u32,
        width: u32,
        height: u32,
        assignment: TopologyAssignment,
    ) -> (r: Self)
        ensures
            r.outputs@ == seq![
                OutputPresentation {
                    crtc,
                    frame_state: OutputFrameState::Idle,
                    current_buffer: None,
                    width,
                    height,
                },
            ],
            r.assignment == assignment,
            r.frame_seq == 0,
    {
        let mut outputs: Vec<OutputPresentation> = Vec::new();
        outputs.push(
            OutputPresentation {
                crtc,
                frame_state: OutputFrameState::Idle,
                current_buffer: None,
                width,
                height,
            },
        );
        assert(outputs@ =~= seq![
            OutputPresentation {
                crtc,
                frame_state: OutputFrameState::Idle,
                current_buffer: None,
                width,
                height,
            },
        ]);
        DrmGraphicsBackend { outputs, assignment, frame_seq: 0 }
    }

    /// The topology assignment the outputs were built from.
    pub fn assignment(&self) -> (r: &TopologyAssignment)
        ensures
            *r == self.assignment,
    {
        &self.assignment
    }

    /// Which output owns this CRTC.
    pub fn output_index_for_crtc(&self, crtc: u32) -> (r: Option<usize>)
        ensures
            match r {
                Some(i) => i < self.outputs@.len() && i == crtc_index(self.outputs@, crtc),
                None => crtc_index(self.outputs@, crtc) == self.outputs@.len(),
            },
    {
        let mut i: usize = 0;
        while i < self.outputs.len()
            invariant
                i <= self.outputs@.len(),
                forall|j: int| 0 <= j < i ==> (#[trigger] self.outputs@[j]).crtc != crtc,
            decreases self.outputs@.len() - i,
        {
            if self.outputs[i].crtc == crtc {
                proof {
                    lemma_crtc_index(self.outputs@, crtc, i as int);
                }
                return Some(i);
            }
            i = i + 1;
        }
        proof {
            lemma_crtc_index(self.outputs@, crtc, i as int);
        }
        None
    }

    /// Whether an output awaits a flip. Events are worth reading only
    /// then.
    pub fn awaits_flip(&self) -> (r: bool)
        ensures
            r == flip_awaited(self.outputs@),
    {
        let mut i: usize = 0;
        while i < self.outputs.len()
            invariant
                i <= self.outputs@.len(),
                forall|j: int|
                    0 <= j < i ==> (#[trigger] self.outputs@[j]).frame_state
                        != OutputFrameState::FlipPending,
            decreases self.outputs@.len() - i,
        {
            if self.outputs[i].frame_state == OutputFrameState::FlipPending {
                assert(self.outputs@[i as int].frame_state == OutputFrameState::FlipPending);
                return true;
            }
            i = i + 1;
        }
        false
    }

    /// Handles the flip events that were read. Every event is attributed
    /// by its CRTC to at most one output; events nobody awaits are
    /// dropped. Returns true when some output's flip completed.
    pub fn handle_flip_events(&mut self, events: &Vec<FlipEvent>) -> (r: bool)
        ensures
            r == (flip_awaited(old(self).outputs@) && some_completes(
                old(self).outputs@,
                events@,
                events@.len() as int,
            )),
            final(self).outputs@ == if flip_awaited(old(self).outputs@) {
                after_events(old(self).outputs@, events@, events@.len() as int)
            } else {
                old(self).outputs@
            },
            final(self).assignment == old(self).assignment,
            final(self).frame_seq == old(self).frame_seq,
    {
        if !self.awaits_flip() {
            return false;
        }
        let mut completed = false;
        let mut i: usize = 0;
        while i < events.len()
            invariant
                i <= events@.len(),
                self.outputs@ == after_events(old(self).outputs@, events@, i as int),
                completed == some_completes(old(self).outputs@, events@, i as int),
                self.assignment == old(self).assignment,
                self.frame_seq == old(self).frame_seq,
            decreases events@.len() - i,
        {
            let e = events[i];
            if let Some(k) = self.output_index_for_crtc(e.crtc) {
                let o = self.outputs[k];
                if o.frame_state.flip_complete() && e.retirement == Retirement::Retired {
                    self.outputs[k] = OutputPresentation {
                        frame_state: OutputFrameState::Idle,
                        ..o
                    };
                    completed = true;
                }
            }
            i = i + 1;
        }
        completed
    }

    /// Begins one output's frame. Beginning during an outstanding flip is
    /// a missed drain and never tolerated.
    pub fn begin_output(&mut self, idx: usize) -> (r: Result<(), PresentError>)
        ensures
            r == if idx >= old(self).outputs@.len() {
                Err(PresentError::NoSuchOutput)
            } else {
                match begun(old(self).outputs@[idx as int].frame_state) {
                    Ok(_) => Ok(()),
                    Err(e) => Err(PresentError::State(e)),
                }
            },
            final(self).outputs@ == if r is Ok {
                old(self).outputs@.update(
                    idx as int,
                    OutputPresentation {
                        frame_state: OutputFrameState::Rendering,
                        ..old(self).outputs@[idx as int]
                    },
                )
            } else {
                old(self).outputs@
            },
            final(self).assignment == old(self).assignment,
            final(self).frame_seq == old(self).frame_seq,
    {
        if idx >= self.outputs.len() {
            return Err(PresentError::NoSuchOutput);
        }
        let o = self.outputs[idx];
        match o.frame_state.begin() {
            Ok(s) => {
                self.outputs[idx] = OutputPresentation { frame_state: s, ..o };
                Ok(())
            },
            Err(e) => Err(PresentError::State(e)),
        }
    }

    /// Records the buffer a begun frame draws into. A buffer that does not
    /// tell its stride has four bytes to the pixel.
    pub fn bind_buffer(&mut self, idx: usize, buffer: u64, stride: Option<u32>)
        requires
            idx < old(self).outputs@.len(),
            old(self).outputs@[idx as int].width * 4 <= u32::MAX,
        ensures
            final(self).outputs@ == old(self).outputs@.update(
                idx as int,
                OutputPresentation {
                    current_buffer: Some(
                        (
                            buffer,
                            match stride {
                                Some(s) => s,
                                None => (old(self).outputs@[idx as int].width * 4) as u32,
                            },
                            old(self).outputs@[idx as int].height,
                        ),
                    ),
                    ..old(self).outputs@[idx as int]
                },
            ),
            final(self).assignment == old(self).assignment,
            final(self).frame_seq == old(self).frame_seq,
    {
        let o = self.outputs[idx];
        let bytes: u32 = match stride {
            Some(s) => s,
            None => o.width * 4,
        };
        self.outputs[idx] = OutputPresentation {
            current_buffer: Some((buffer, bytes, o.height)),
            ..o
        };
    }

    /// Finishes one output's frame: submits it and arms the flip. The
    /// frame counts even if it cannot be submitted.
    pub fn finish_output(&mut self, idx: usize) -> (r: Result<(), PresentError>)
        requires
            old(self).frame_seq < u64::MAX,
        ensures
            final(self).frame_seq == old(self).frame_seq + 1,
            r == if idx >= old(self).outputs@.len() {
                Err(PresentError::NoSuchOutput)
            } else if old(self).outputs@[idx as int].frame_state == OutputFrameState::Rendering {
                Ok(())
            } else {
                Err(PresentError::State(FrameStateError::SubmitWithoutBegin))
            },
            final(self).outputs@ == if r is Ok {
                old(self).outputs@.update(
                    idx as int,
                    OutputPresentation {
                        frame_state: OutputFrameState::FlipPending,
                        ..old(self).outputs@[idx as int]
                    },
                )
            } else {
                old(self).outputs@
            },
            final(self).assignment == old(self).assignment,
    {
        self.frame_seq = self.frame_seq + 1;
        if idx >= self.outputs.len() {
            return Err(PresentError::NoSuchOutput);
        }
        let o = self.outputs[idx];
        match o.frame_state.submit() {
            Ok(s) => match s.arm_flip() {
                Ok(a) => {
                    self.outputs[idx] = OutputPresentation { frame_state: a, ..o };
                    Ok(())
                },
                Err(e) => Err(PresentError::State(e)),
            },
            Err(e) => Err(PresentError::State(e)),
        }
    }

    /// An output left: its frame lifecycle ends.
    pub fn force_output_idle(&mut self, idx: usize)
        ensures
            final(self).outputs@ == if idx < old(self).outputs@.len() {
                old(self).outputs@.update(
                    idx as int,
                    OutputPresentation {
                        frame_state: OutputFrameState::Idle,
                        ..old(self).outputs@[idx as int]
                    },
                )
            } else {
                old(self).outputs@
            },
            final(self).assignment == old(self).assignment,
            final(self).frame_seq == old(self).frame_seq,
    {
        if idx < self.outputs.len() {
            let o = self.outputs[idx];
            self.outputs[idx] = OutputPresentation { frame_state: o.frame_state.force_idle(), ..o };
        }
    }

    /// Unplugs an output: its lifecycle ends, then its presentation state
    /// goes. Returns false when there is no such output.
    pub fn unplug_output(&mut self, idx: usize) -> (r: bool)
        ensures
            r == (idx < old(self).outputs@.len()),
            final(self).outputs@ == if r {
                old(self).outputs@.remove(idx as int)
            } else {
                old(self).outputs@
            },
            final(self).assignment == old(self).assignment,
            final(self).frame_seq == old(self).frame_seq,
    {
        if idx >= self.outputs.len() {
            return false;
        }
        self.force_output_idle(idx);
        self.outputs.remove(idx);
        assert(self.outputs@ =~= old(self).outputs@.remove(idx as int));
        true
    }

    /// The size of the output a frame presents to.
    pub fn size(&self) -> (r: (u32, u32))
        requires
            self.outputs@.len() > 0,
        ensures
            r == (self.outputs@[0].width, self.outputs@[0].height),
    {
        (self.outputs[0].width, self.outputs[0].height)
    }
}

/// A flip event of one CRTC leaves every output of another CRTC exactly
/// as it was: its state, its buffer and its place.
pub proof fn law_flip_of_one_output_leaves_the_others(
    s: Seq<OutputPresentation>,
    e: FlipEvent,
    i: int,
)
    requires
        0 <= i < s.len(),
        s[i].crtc != e.crtc,
    ensures
        after_event(s, e).len() == s.len(),
        after_event(s, e)[i] == s[i],
{
    lemma_crtc_index_bounds(s, e.crtc);
}

/// Events for CRTCs that no output has change nothing.
pub proof fn law_unknown_crtc_is_dropped(s: Seq<OutputPresentation>, e: FlipEvent)
    requires
        forall|i: int| 0 <= i < s.len() ==> (#[trigger] s[i]).crtc != e.crtc,
    ensures
        after_event(s, e) == s,
        !event_completes(s, e),
{
    lemma_crtc_index(s, e.crtc, s.len() as int);
}

/// However many events are handled, no output changes its CRTC or its
/// size, and none is lost.
pub proof fn law_events_keep_outputs(
    s: Seq<OutputPresentation>,
    events: Seq<FlipEvent>,
    n: int,
    i: int,
)
    requires
        0 <= n <= events.len(),
        0 <= i < s.len(),
    ensures
        after_events(s, events, n).len() == s.len(),
        after_events(s, events, n)[i].crtc == s[i].crtc,
        after_events(s, events, n)[i].width == s[i].width,
        after_events(s, events, n)[i].height == s[i].height,
    decreases n,
{
    if n > 0 {
        law_events_keep_outputs(s, events, n - 1, i);
        lemma_crtc_index_bounds(after_events(s, events, n - 1), events[n - 1].crtc);
    }
}

/// The pixel a test frame has in a row: grey bands of eight rows, shifted
/// by the frame number.
pub open spec fn band_shade(frame: u32, row: int) -> int {
    ((frame % 8 + row / 8) % 8) * 32
}

/// An opaque grey pixel of this shade.
pub fn pattern_pixel(frame: u32, row: u32) -> (r: u32)
    ensures
        r == 0xff00_0000 + band_shade(frame, row as int) * 0x1_0101,
{
    let base: u32 = frame % 8;
    let shade: u32 = ((base + row / 8) % 8) * 32;
    assert(shade < 256 ==> ((shade << 16) | (shade << 8) | shade | 0xff00_0000u32) == 0xff00_0000u32
        + shade * 0x1_0101u32) by (bit_vector);
    (shade << 16) | (shade << 8) | shade | 0xff00_0000
}

/// The rows of a test frame, top to bottom, one pixel value per row.
pub fn test_pattern(frame: u32, height: u32) -> (r: Vec<u32>)
    ensures
        r@.len() == height,
        forall|row: int|
            0 <= row < height ==> (#[trigger] r@[row]) == 0xff00_0000 + band_shade(frame, row)
                * 0x1_0101,
{
    let mut out: Vec<u32> = Vec::new();
    let mut row: u32 = 0;
    while row < height
        invariant
            row <= height,
            out@.len() == row,
            forall|k: int|
                0 <= k < row ==> (#[trigger] out@[k]) == 0xff00_0000 + band_shade(frame, k)
                    * 0x1_0101,
        decreases height - row,
    {
        out.push(pattern_pixel(frame, row));
        row = row + 1;
    }
    out
}

/// Whether `needle` occurs in `s` at position `i`.
pub open spec fn occurs_at(s: Seq<char>, needle: Seq<char>, i: int) -> bool {
    0 <= i && i + needle.len() <= s.len() && s.subrange(i, i + needle.len()) == needle
}

/// Whether `needle` occurs in `s`.
pub open spec fn occurs(s: Seq<char>, needle: Seq<char>) -> bool {
    exists|i: int| occurs_at(s, needle, i)
}

/// Whether `needle` occurs in `s`.
fn contains_text(s: &str, needle: &str) -> (r: bool)
    ensures
        r == occurs(s@, needle@),
{
    let n: usize = s.unicode_len();
    let m: usize = needle.unicode_len();
    let wanted = needle.to_owned();
    if m > n {
        return false;
    }
    let last: usize = n - m;
    let mut i: usize = 0;
    loop
        invariant
            i <= last,
            last + m == n,
            n == s@.len(),
            m == needle@.len(),
            wanted@ == needle@,
            forall|j: int| 0 <= j < i ==> !occurs_at(s@, needle@, j),
        decreases last - i,
    {
        if s.substring_char(i, i + m).to_owned() == wanted {
            assert(occurs_at(s@, needle@, i as int));
            return true;
        }
        assert(!occurs_at(s@, needle@, i as int));
        if i == last {
            assert forall|j: int| !occurs_at(s@, needle@, j) by {
                if j > last {
                    assert(j + needle@.len() > s@.len());
                }
            }
            return false;
        }
        i = i + 1;
    }
}

/// Whether a lower-cased renderer name is that of a software rasterizer.
pub open spec fn software_name(name: Seq<char>) -> bool {
    occurs(name, "llvmpipe"@) || occurs(name, "softpipe"@) || occurs(name, "swrast"@) || occurs(
        name,
        "zink"@,
    )
}

/// Whether a lower-cased renderer name is that of a software rasterizer.
pub fn is_software_name(name: &str) -> (r: bool)
    ensures
        r == software_name(name@),
{
    contains_text(name, "llvmpipe") || contains_text(name, "softpipe") || contains_text(
        name,
        "swrast",
    ) || contains_text(name, "zink")
}

/// Whether the renderer may draw into scanout buffers. Software
/// rasterizers report the formats but cannot; where rendering is wanted
/// they are refused unless forced.
pub fn renderer_allowed(gl_renderer: &str, must_render: bool, forced: bool) -> (r: bool)
    ensures
        r == !(software_name(lowercased(gl_renderer@)) && must_render && !forced),
{
    let lower = to_lowercase(gl_renderer);
    !(is_software_name(lower.as_str()) && must_render && !forced)
}

/// A mode as the device reports it.
#[derive(Debug, Clone, Copy, PartialEq, Eq, Structural)]
pub struct DeviceMode {
    pub width: u16,
    pub height: u16,
    pub vrefresh: u32,
    pub preferred: bool,
}

/// Refresh in mHz of a mode whose rate in Hz is sensible.
pub open spec fn mode_of(m: DeviceMode) -> TopologyMode {
    TopologyMode {
        width: m.width as u32,
        height: m.height as u32,
        refresh_mhz: (m.vrefresh * 1000) as i32,
        preferred: m.preferred,
    }
}

/// The refresh rate in mHz is representable.
pub open spec fn sensible_rate(m: DeviceMode) -> bool {
    m.vrefresh * 1000 <= i32::MAX
}

impl DeviceMode {
    pub fn topology_mode(&self) -> (r: TopologyMode)
        requires
            sensible_rate(*self),
        ensures
            r == mode_of(*self),
    {
        TopologyMode {
            width: self.width as u32,
            height: self.height as u32,
            refresh_mhz: (self.vrefresh * 1000) as i32,
            preferred: self.preferred,
        }
    }
}

/// Whether a device mode is the one assigned, by size and refresh.
pub open spec fn same_mode(d: DeviceMode, m: TopologyMode) -> bool {
    d.width == m.width && d.height == m.height && d.vrefresh * 1000 == m.refresh_mhz
}

/// Why a device cannot be presented on.
#[derive(Debug, Clone, Copy, PartialEq, Eq, Structural)]
pub enum SetupError {
    NoCrtcs,
    DiscoveryFailed,
    NoUsableOutput,
    ConnectorVanished,
    CrtcVanished,
    ModeNotFound,
}

impl SetupError {
    /// What the error is reported as.
    pub open spec fn text(self) -> Seq<char> {
        match self {
            SetupError::NoCrtcs => "no CRTCs available"@,
            SetupError::DiscoveryFailed => "topology discovery failed"@,
            SetupError::NoUsableOutput => "no connected connector with a usable CRTC"@,
            SetupError::ConnectorVanished => "assigned connector vanished"@,
            SetupError::CrtcVanished => "assigned CRTC vanished"@,
            SetupError::ModeNotFound => "assigned mode not found"@,
        }
    }

    pub fn into_backend_error(self) -> (r: DrmBackendError)
        ensures
            r matches DrmBackendError::Drm(e) && e@ == self.text(),
    {
        DrmBackendError::Drm(
            match self {
                SetupError::NoCrtcs => "no CRTCs available".to_owned(),
                SetupError::DiscoveryFailed => "topology discovery failed".to_owned(),
                SetupError::NoUsableOutput => "no connected connector with a usable CRTC".to_owned(),
                SetupError::ConnectorVanished => "assigned connector vanished".to_owned(),
                SetupError::CrtcVanished => "assigned CRTC vanished".to_owned(),
                SetupError::ModeNotFound => "assigned mode not found".to_owned(),
            },
        )
    }
}

/// Position of the first `x`, or the length.
pub open spec fn handle_index(s: Seq<u32>, x: u32) -> int
    decreases s.len(),
{
    if s.len() == 0 || s[0] == x {
        0
    } else {
        1 + handle_index(s.drop_first(), x)
    }
}

proof fn lemma_handle_index(s: Seq<u32>, x: u32, i: int)
    requires
        0 <= i <= s.len(),
        forall|j: int| 0 <= j < i ==> s[j] != x,
        i < s.len() ==> s[i] == x,
    ensures
        handle_index(s, x) == i,
    decreases s.len(),
{
    if i > 0 {
        assert(s[0] != x);
        let rest = s.drop_first();
        assert forall|j: int| 0 <= j < i - 1 implies rest[j] != x by {
            assert(rest[j] == s[j + 1]);
        }
        lemma_handle_index(rest, x, i - 1);
    }
}

fn find_handle(s: &Vec<u32>, x: u32) -> (r: Option<usize>)
    ensures
        match r {
            Some(i) => i < s@.len() && i == handle_index(s@, x),
            None => handle_index(s@, x) == s@.len(),
        },
{
    let mut i: usize = 0;
    while i < s.len()
        invariant
            i <= s@.len(),
            forall|j: int| 0 <= j < i ==> s@[j] != x,
        decreases s@.len() - i,
    {
        if s[i] == x {
            proof {
                lemma_handle_index(s@, x, i as int);
            }
            return Some(i);
        }
        i = i + 1;
    }
    proof {
        lemma_handle_index(s@, x, i as int);
    }
    None
}

/// The output a device presents on: its assignment, and where the
/// connector and the CRTC of its first output stand in the device's lists.
#[derive(Debug)]
pub struct OutputPlan {
    pub assignment: TopologyAssignment,
    pub output: AssignedOutput,
    pub connector: usize,
    pub crtc: usize,
}

/// What is wrong with a device, if anything.
pub open spec fn setup_fault(
    crtcs: Seq<u32>,
    topology: Option<TopologyModel>,
    connectors: Seq<u32>,
) -> Option<SetupError> {
    if crtcs.len() == 0 {
        Some(SetupError::NoCrtcs)
    } else {
        match topology {
            None => Some(SetupError::DiscoveryFailed),
            Some(t) => {
                let outputs = assigned(t).outputs;
                if outputs.len() == 0 {
                    Some(SetupError::NoUsableOutput)
                } else if !connectors.contains(outputs[0].connector_id) {
                    Some(SetupError::ConnectorVanished)
                } else if !crtcs.contains(outputs[0].crtc_id) {
                    Some(SetupError::CrtcVanished)
                } else {
                    None
                }
            },
        }
    }
}

/// Chooses the output to present on: the first one of the assignment,
/// resolved to the device's connectors and CRTCs.
pub fn plan_output(
    crtcs: &Vec<u32>,
    topology: &Option<DrmTopology>,
    connectors: &Vec<u32>,
) -> (r: Result<OutputPlan, SetupError>)
    ensures
        match r {
            Ok(p) => {
                &&& setup_fault(
                    crtcs@,
                    match topology {
                        Some(t) => Some(t@),
                        None => None,
                    },
                    connectors@,
                ) is None
                &&& p.assignment@ == assigned(topology->0@)
                &&& p.output == p.assignment@.outputs[0]
                &&& p.connector == handle_index(connectors@, p.output.connector_id)
                &&& p.crtc == handle_index(crtcs@, p.output.crtc_id)
                &&& p.connector < connectors@.len()
                &&& p.crtc < crtcs@.len()
            },
            Err(e) => setup_fault(
                crtcs@,
                match topology {
                    Some(t) => Some(t@),
                    None => None,
                },
                connectors@,
            ) == Some(e),
        },
{
    if crtcs.len() == 0 {
        return Err(SetupError::NoCrtcs);
    }
    match topology {
        None => Err(SetupError::DiscoveryFailed),
        Some(t) => {
            let assignment = t.assign();
            if assignment.outputs.len() == 0 {
                return Err(SetupError::NoUsableOutput);
            }
            let output = assignment.outputs[0];
            match find_handle(connectors, output.connector_id) {
                None => {
                    proof {
                        lemma_handle_absent(connectors@, output.connector_id);
                    }
                    Err(SetupError::ConnectorVanished)
                },
                Some(connector) => match find_handle(crtcs, output.crtc_id) {
                    None => {
                        proof {
                            lemma_handle_absent(crtcs@, output.crtc_id);
                            lemma_handle_present(connectors@, output.connector_id);
                        }
                        Err(SetupError::CrtcVanished)
                    },
                    Some(crtc) => {
                        proof {
                            lemma_handle_present(connectors@, output.connector_id);
                            lemma_handle_present(crtcs@, output.crtc_id);
                        }
                        Ok(OutputPlan { assignment, output, connector, crtc })
                    },
                },
            }
        },
    }
}

proof fn lemma_handle_absent(s: Seq<u32>, x: u32)
    requires
        handle_index(s, x) == s.len(),
    ensures
        !s.contains(x),
    decreases s.len(),
{
    if s.len() > 0 {
        lemma_handle_absent(s.drop_first(), x);
        if s.contains(x) {
            let i = choose|i: int| 0 <= i < s.len() && s[i] == x;
            assert(i > 0);
            assert(s.drop_first()[i - 1] == x);
        }
    }
}

proof fn lemma_handle_present(s: Seq<u32>, x: u32)
    requires
        handle_index(s, x) < s.len(),
    ensures
        s.contains(x),
        0 <= handle_index(s, x),
        s[handle_index(s, x)] == x,
    decreases s.len(),
{
    if s.len() > 0 && s[0] != x {
        lemma_handle_present(s.drop_first(), x);
        let i = handle_index(s.drop_first(), x);
        assert(s[i + 1] == x);
    } else {
        assert(s[0] == x);
    }
}

/// The first device mode that is the one assigned.
pub fn find_mode(modes: &Vec<DeviceMode>, wanted: TopologyMode) -> (r: Result<usize, SetupError>)
    requires
        forall|i: int| 0 <= i < modes@.len() ==> sensible_rate(#[trigger] modes@[i]),
    ensures
        match r {
            Ok(i) => i < modes@.len() && same_mode(modes@[i as int], wanted) && forall|j: int|
                0 <= j < i ==> !same_mode(#[trigger] modes@[j], wanted),
            Err(e) => e == SetupError::ModeNotFound && forall|j: int|
                0 <= j < modes@.len() ==> !same_mode(#[trigger] modes@[j], wanted),
        },
{
    let mut i: usize = 0;
    while i < modes.len()
        invariant
            i <= modes@.len(),
            forall|k: int| 0 <= k < modes@.len() ==> sensible_rate(#[trigger] modes@[k]),
            forall|j: int| 0 <= j < i ==> !same_mode(#[trigger] modes@[j], wanted),
        decreases modes@.len() - i,
    {
        let m = modes[i].topology_mode();
        if m.width == wanted.width && m.height == wanted.height && m.refresh_mhz
            == wanted.refresh_mhz {
            return Ok(i);
        }
        i = i + 1;
    }
    Err(SetupError::ModeNotFound)
}

/// An encoder of a connector: its id and the CRTCs it can feed, or
/// nothing when the device does not tell.
#[derive(Debug)]
pub struct EncoderInfo {
    pub id: u32,
    pub feeds: Option<Vec<u32>>,
}

/// A connector as the device reports it.
#[derive(Debug)]
pub struct ConnectorInfo {
    pub id: u32,
    pub state: ConnectorState,
    pub modes: Vec<DeviceMode>,
    pub encoders: Vec<EncoderInfo>,
}

/// The encoders among the first `n` that the device tells about, each
/// once.
pub open spec fn known_encoders(s: Seq<EncoderInfo>, n: int) -> Seq<u32>
    decreases n,
{
    if n <= 0 {
        Seq::empty()
    } else {
        let rest = known_encoders(s, n - 1);
        if s[n - 1].feeds is Some && !rest.contains(s[n - 1].id) {
            rest.push(s[n - 1].id)
        } else {
            rest
        }
    }
}

/// The connector as the topology has it.
pub open spec fn connector_of(c: ConnectorInfo) -> ConnectorModel {
    ConnectorModel {
        id: c.id,
        state: c.state,
        modes: c.modes@.map_values(|m: DeviceMode| mode_of(m)),
        encoders: known_encoders(c.encoders@, c.encoders@.len() as int),
    }
}

/// The connectors of the first `n`, each put in its place.
pub open spec fn connectors_of(s: Seq<ConnectorInfo>, n: int) -> Seq<ConnectorModel>
    decreases n,
{
    if n <= 0 {
        Seq::empty()
    } else {
        connectors_sorted(connectors_of(s, n - 1).push(connector_of(s[n - 1])))
    }
}

fn contains_handle(s: &Vec<u32>, x: u32) -> (r: bool)
    ensures
        r == s@.contains(x),
{
    match find_handle(s, x) {
        Some(_) => {
            proof {
                lemma_handle_present(s@, x);
            }
            true
        },
        None => {
            proof {
                lemma_handle_absent(s@, x);
            }
            false
        },
    }
}

/// The encoders the device tells about, each once.
fn encoder_ids(encoders: &Vec<EncoderInfo>) -> (r: Vec<u32>)
    ensures
        r@ == known_encoders(encoders@, encoders@.len() as int),
{
    let mut out: Vec<u32> = Vec::new();
    let mut i: usize = 0;
    while i < encoders.len()
        invariant
            i <= encoders@.len(),
            out@ == known_encoders(encoders@, i as int),
        decreases encoders@.len() - i,
    {
        if encoders[i].feeds.is_some() && !contains_handle(&out, encoders[i].id) {
            out.push(encoders[i].id);
        }
        i = i + 1;
    }
    out
}

/// The connector as the topology has it.
fn connector_from(c: &ConnectorInfo) -> (r: TopologyConnector)
    requires
        forall|i: int| 0 <= i < c.modes@.len() ==> sensible_rate(#[trigger] c.modes@[i]),
    ensures
        r@ == connector_of(*c),
{
    let mut modes: Vec<TopologyMode> = Vec::new();
    let mut i: usize = 0;
    while i < c.modes.len()
        invariant
            i <= c.modes@.len(),
            forall|k: int| 0 <= k < c.modes@.len() ==> sensible_rate(#[trigger] c.modes@[k]),
            modes@ == c.modes@.take(i as int).map_values(|m: DeviceMode| mode_of(m)),
        decreases c.modes@.len() - i,
    {
        modes.push(c.modes[i].topology_mode());
        assert(modes@ =~= c.modes@.take(i + 1).map_values(|m: DeviceMode| mode_of(m)));
        i = i + 1;
    }
    assert(c.modes@.take(i as int) =~= c.modes@);
    TopologyConnector {
        id: c.id,
        state: c.state,
        modes,
        encoder_candidates: encoder_ids(&c.encoders),
    }
}

/// What is known of one encoder across the device: which CRTCs it feeds.
#[derive(Debug)]
struct EncoderFeeds {
    id: u32,
    feeds: Vec<u32>,
}

/// The encoders of the first connectors with what each feeds; the first
/// account of an encoder stands.
pub open spec fn feeds_of(s: Seq<ConnectorInfo>, n: int) -> Seq<(u32, Seq<u32>)>
    decreases n,
{
    if n <= 0 {
        Seq::empty()
    } else {
        feeds_with(feeds_of(s, n - 1), s[n - 1].encoders@, s[n - 1].encoders@.len() as int)
    }
}

/// An account extended by the first `n` encoders of a connector.
pub open spec fn feeds_with(
    known: Seq<(u32, Seq<u32>)>,
    encoders: Seq<EncoderInfo>,
    n: int,
) -> Seq<(u32, Seq<u32>)>
    decreases n,
{
    if n <= 0 {
        known
    } else {
        let rest = feeds_with(known, encoders, n - 1);
        match encoders[n - 1].feeds {
            Some(f) if !has_account(rest, encoders[n - 1].id) => rest.push(
                (encoders[n - 1].id, f@),
            ),
            _ => rest,
        }
    }
}

/// Whether an encoder is accounted for.
pub open spec fn has_account(known: Seq<(u32, Seq<u32>)>, id: u32) -> bool {
    exists|i: int| 0 <= i < known.len() && (#[trigger] known[i]).0 == id
}

/// The CRTCs among the first `n`, each with the encoders that feed it, in
/// ascending id order.
pub open spec fn crtcs_of(crtcs: Seq<u32>, known: Seq<(u32, Seq<u32>)>, n: int) -> Seq<CrtcModel>
    decreases n,
{
    if n <= 0 {
        Seq::empty()
    } else {
        crtcs_sorted(
            crtcs_of(crtcs, known, n - 1).push(
                CrtcModel { id: crtcs[n - 1], encoders: feeding(known, crtcs[n - 1]) },
            ),
        )
    }
}

/// The encoders that feed the CRTC.
pub open spec fn feeding(known: Seq<(u32, Seq<u32>)>, crtc: u32) -> Seq<u32> {
    known.filter(|k: (u32, Seq<u32>)| k.1.contains(crtc)).map_values(|k: (u32, Seq<u32>)| k.0)
}

/// The topology of a device from what it reports.
pub open spec fn discovered(connectors: Seq<ConnectorInfo>, crtcs: Seq<u32>) -> TopologyModel {
    TopologyModel {
        connectors: connectors_of(connectors, connectors.len() as int),
        crtcs: crtcs_of(crtcs, feeds_of(connectors, connectors.len() as int), crtcs.len() as int),
    }
}

spec fn accounts(s: Seq<EncoderFeeds>) -> Seq<(u32, Seq<u32>)> {
    s.map_values(|e: EncoderFeeds| (e.id, e.feeds@))
}

fn copy_handles(v: &Vec<u32>) -> (r: Vec<u32>)
    ensures
        r@ == v@,
{
    let mut out: Vec<u32> = Vec::new();
    let mut i: usize = 0;
    while i < v.len()
        invariant
            i <= v@.len(),
            out@ == v@.take(i as int),
        decreases v@.len() - i,
    {
        out.push(v[i]);
        i = i + 1;
        assert(out@ =~= v@.take(i as int));
    }
    assert(v@.take(i as int) =~= v@);
    out
}

fn account_known(known: &Vec<EncoderFeeds>, id: u32) -> (r: bool)
    ensures
        r == has_account(accounts(known@), id),
{
    let mut i: usize = 0;
    while i < known.len()
        invariant
            i <= known@.len(),
            forall|j: int| 0 <= j < i ==> (#[trigger] accounts(known@)[j]).0 != id,
        decreases known@.len() - i,
    {
        if known[i].id == id {
            assert(accounts(known@)[i as int].0 == id);
            return true;
        }
        i = i + 1;
    }
    false
}

fn account_encoders(known: &mut Vec<EncoderFeeds>, encoders: &Vec<EncoderInfo>)
    ensures
        accounts(final(known)@) == feeds_with(
            accounts(old(known)@),
            encoders@,
            encoders@.len() as int,
        ),
{
    let mut i: usize = 0;
    while i < encoders.len()
        invariant
            i <= encoders@.len(),
            accounts(known@) == feeds_with(accounts(old(known)@), encoders@, i as int),
        decreases encoders@.len() - i,
    {
        let ghost before = known@;
        if let Some(f) = &encoders[i].feeds {
            if !account_known(known, encoders[i].id) {
                let feeds = copy_handles(f);
                known.push(EncoderFeeds { id: encoders[i].id, feeds });
                assert(accounts(known@) =~= accounts(before).push((encoders@[i as int].id, f@)));
            }
        }
        i = i + 1;
    }
}

/// Builds the topology from what a device reports of its connectors and
/// CRTCs. An encoder can drive a CRTC when the device says it feeds it.
pub fn discover_topology(connectors: &Vec<ConnectorInfo>, crtcs: &Vec<u32>) -> (r: DrmTopology)
    requires
        forall|i: int, j: int|
            0 <= i < connectors@.len() && 0 <= j < connectors@[i].modes@.len() ==> sensible_rate(
                #[trigger] connectors@[i].modes@[j],
            ),
    ensures
        r@ == discovered(connectors@, crtcs@),
{
    let mut topology = DrmTopology::new();
    let mut known: Vec<EncoderFeeds> = Vec::new();
    let mut i: usize = 0;
    assert(topology@.connectors =~= connectors_of(connectors@, 0));
    assert(accounts(known@) =~= feeds_of(connectors@, 0));
    while i < connectors.len()
        invariant
            i <= connectors@.len(),
            forall|i: int, j: int|
                0 <= i < connectors@.len() && 0 <= j < connectors@[i].modes@.len()
                    ==> sensible_rate(#[trigger] connectors@[i].modes@[j]),
            topology@.connectors == connectors_of(connectors@, i as int),
            topology@.crtcs.len() == 0,
            accounts(known@) == feeds_of(connectors@, i as int),
        decreases connectors@.len() - i,
    {
        account_encoders(&mut known, &connectors[i].encoders);
        topology.add_connector(connector_from(&connectors[i]));
        i = i + 1;
    }
    let ghost table = accounts(known@);
    let mut k: usize = 0;
    assert(topology@.crtcs =~= crtcs_of(crtcs@, table, 0));
    while k < crtcs.len()
        invariant
            k <= crtcs@.len(),
            table == accounts(known@),
            topology@.connectors == connectors_of(connectors@, connectors@.len() as int),
            topology@.crtcs == crtcs_of(crtcs@, table, k as int),
        decreases crtcs@.len() - k,
    {
        let candidates = encoders_feeding(&known, crtcs[k]);
        topology.add_crtc(TopologyCrtc { id: crtcs[k], encoder_candidates: candidates });
        k = k + 1;
    }
    topology
}

/// The encoders that feed the CRTC.
fn encoders_feeding(known: &Vec<EncoderFeeds>, crtc: u32) -> (r: Vec<u32>)
    ensures
        r@ == feeding(accounts(known@), crtc),
{
    let ghost s = accounts(known@);
    let ghost p = |k: (u32, Seq<u32>)| k.1.contains(crtc);
    let ghost f = |k: (u32, Seq<u32>)| k.0;
    let mut out: Vec<u32> = Vec::new();
    let mut i: usize = 0;
    while i < known.len()
        invariant
            i <= known@.len(),
            s == accounts(known@),
            p == (|k: (u32, Seq<u32>)| k.1.contains(crtc)),
            f == (|k: (u32, Seq<u32>)| k.0),
            out@ == s.take(i as int).filter(p).map_values(f),
        decreases known@.len() - i,
    {
        proof {
            reveal(Seq::filter);
            assert(s.take(i + 1).drop_last() =~= s.take(i as int));
            assert(s.take(i + 1).last() == s[i as int]);
        }
        let ghost before = s.take(i as int).filter(p);
        if contains_handle(&known[i].feeds, crtc) {
            out.push(known[i].id);
            assert(before.push(s[i as int]).map_values(f) =~= before.map_values(f).push(
                s[i as int].0,
            ));
        }
        i = i + 1;
    }
    assert(s.take(i as int) =~= s);
    out
}

/// A mode is told in full: its size, its rate in thousandths of a hertz,
/// and whether it is preferred. It is the same mode that is found again.
pub proof fn law_mode_is_told_in_full(m: DeviceMode)
    requires
        m.vrefresh <= 2_000_000,
    ensures
        mode_of(m).width == m.width,
        mode_of(m).height == m.height,
        mode_of(m).refresh_mhz == m.vrefresh * 1000,
        mode_of(m).preferred == m.preferred,
        same_mode(m, mode_of(m)),
{
}

/// A flip completes the frame that its output awaits: the first output of
/// the CRTC is idle then, and every other output is as it was. One that
/// completes nothing changes nothing.
pub proof fn law_flip_completes_its_frame(s: Seq<OutputPresentation>, e: FlipEvent, k: int)
    requires
        0 <= k < s.len(),
        s[k].crtc == e.crtc,
        forall|j: int| 0 <= j < k ==> (#[trigger] s[j]).crtc != e.crtc,
    ensures
        s[k].frame_state == OutputFrameState::FlipPending && e.retirement == Retirement::Retired
            ==> event_completes(s, e) && after_event(s, e) == s.update(
            k,
            OutputPresentation { frame_state: OutputFrameState::Idle, ..s[k] },
        ),
        s[k].frame_state == OutputFrameState::Submitted && e.retirement == Retirement::Retired
            ==> event_completes(s, e) && after_event(s, e)[k].frame_state
            == OutputFrameState::Idle,
        s[k].frame_state == OutputFrameState::Idle || s[k].frame_state
            == OutputFrameState::Rendering || e.retirement != Retirement::Retired
            ==> !event_completes(s, e) && after_event(s, e) == s,
{
    lemma_crtc_index(s, e.crtc, k);
}

/// A renderer whose name has that of a software rasterizer anywhere in it
/// is one.
pub proof fn law_software_renderer_is_known(before: Seq<char>, after: Seq<char>)
    ensures
        software_name(before + "llvmpipe"@ + after),
        software_name(before + "softpipe"@ + after),
        software_name(before + "swrast"@ + after),
        software_name(before + "zink"@ + after),
{
    lemma_occurs(before, "llvmpipe"@, after);
    lemma_occurs(before, "softpipe"@, after);
    lemma_occurs(before, "swrast"@, after);
    lemma_occurs(before, "zink"@, after);
}

proof fn lemma_occurs(before: Seq<char>, needle: Seq<char>, after: Seq<char>)
    ensures
        occurs(before + needle + after, needle),
{
    let s = before + needle + after;
    let n = before.len() as int;
    assert(s.subrange(n, n + needle.len()) =~= needle);
    assert(occurs_at(s, needle, n));
}

/// The bands of a test frame are eight rows high, are shades of grey in
/// eight steps, and move up by one band with every frame.
pub proof fn law_bands_move_up(frame: u32, row: int)
    requires
        0 <= row,
        frame < u32::MAX,
    ensures
        0 <= band_shade(frame, row) < 256,
        band_shade(frame, 8 * (row / 8)) == band_shade(frame, row),
        band_shade((frame + 1) as u32, row) == band_shade(frame, row + 8),
        band_shade(0, 0) == 0,
        band_shade(1, 0) == 32,
{
}

/// An encoder is listed with a CRTC exactly if it is known to feed it.
pub proof fn law_encoders_are_listed_with_what_they_feed(
    known: Seq<(u32, Seq<u32>)>,
    crtc: u32,
    encoder: u32,
)
    ensures
        feeding(known, crtc).contains(encoder) <==> exists|i: int|
            0 <= i < known.len() && (#[trigger] known[i]).0 == encoder && known[i].1.contains(crtc),
{
    broadcast use vstd::seq_lib::group_filter_ensures;

    let p = |k: (u32, Seq<u32>)| k.1.contains(crtc);
    let f = known.filter(p);
    let r = feeding(known, crtc);
    if r.contains(encoder) {
        let i = choose|i: int| 0 <= i < r.len() && r[i] == encoder;
        assert(f[i].0 == encoder);
        assert(p(f[i]));
        assert(f.contains(f[i]));
        known.lemma_filter_contains_rev(p, f[i]);
        let k = choose|k: int| 0 <= k < known.len() && known[k] == f[i];
        assert(known[k].0 == encoder && known[k].1.contains(crtc));
    }
    if exists|i: int|
        0 <= i < known.len() && (#[trigger] known[i]).0 == encoder && known[i].1.contains(crtc) {
        let i = choose|i: int|
            0 <= i < known.len() && (#[trigger] known[i]).0 == encoder && known[i].1.contains(crtc);
        assert(p(known[i]));
        assert(f.contains(known[i]));
        let k = choose|k: int| 0 <= k < f.len() && f[k] == known[i];
        assert(r[k] == encoder);
    }
}

} // verus!
