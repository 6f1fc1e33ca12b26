//! The capture session as its loop sees it: the jobs it takes, where its
//! display output and its audio output stand, and what to do for each job.
//!
//! Also the screen geometry that the capture side shares with the input side:
//! the pair of resolutions in use, and the scaling of pointer coordinates from
//! one to the other.

use crate::counter::IntervalCounter;
use crate::screen::display::frame_relay;
use crate::screen::display::DisplayCaptureDelegate;
use crate::screen::display::DisplayUpdates;
use crate::screen::display::PendingUpdates;
use vstd::prelude::*;

pub mod display;
pub mod sound;

verus! {

/// Number of jobs that may wait for the capture loop at one time.
pub const JOB_QUEUE_CAPACITY: usize = 10;

/// The resolution announced by the remote endpoint (`client`) and the logical
/// resolution of the capture session (`server`), each as `(width, height)`.
///
/// The two are always read and replaced together.
#[derive(Debug, Clone, Copy, PartialEq, Eq)]
pub struct ScreenSize {
    pub client: (u16, u16),
    pub server: (u16, u16),
}

/// The handle of an output attached to the capture session.
///
/// It is only ever compared with another handle or handed back to the session
/// that gave it out.
#[derive(Debug, Clone, Copy, PartialEq, Eq, Structural)]
pub struct ScreenOutputIndex(usize);

impl ScreenOutputIndex {
    /// The raw value behind the handle.
    pub closed spec fn raw(self) -> usize {
        self.0
    }

    /// Wraps the raw value that the session gave out.
    pub fn new(val: usize) -> (index: Self)
        ensures
            index.raw() == val,
    {
        Self(val)
    }

    /// The raw value, to hand back to the session.
    pub fn to_raw(self) -> (val: usize)
        ensures
            val == self.raw(),
    {
        self.0
    }
}

/// One coordinate on the server's screen, kept as the exact quotient
/// `num / den`.
///
/// A pointer position scaled between two resolutions is rarely a whole number of
/// pixels; keeping numerator and denominator loses nothing, and whoever injects
/// the event divides once.  A zero denominator stands for a client that announced
/// an empty screen.
#[derive(Debug, Clone, Copy, PartialEq, Eq, Structural)]
pub struct Coord {
    pub num: u32,
    pub den: u16,
}

/// A pointer position in server space.
#[derive(Debug, Clone, Copy, PartialEq, Eq, Structural)]
pub struct ServerPoint {
    pub x: Coord,
    pub y: Coord,
}

impl Coord {
    /// `self <= other` as quotients with positive denominators, by cross
    /// multiplication.
    pub open spec fn le(self, other: Coord) -> bool {
        self.num * other.den <= other.num * self.den
    }

    /// The quotient is the whole number `n`.
    pub open spec fn is_whole(self, n: int) -> bool {
        self.den > 0 && self.num == n * self.den
    }

    /// The whole number `n`, over the denominator 1.
    pub fn whole(n: u32) -> (c: Coord)
        ensures
            c == (Coord { num: n, den: 1 }),
            c.is_whole(n as int),
    {
        Coord { num: n, den: 1 }
    }
}

impl ServerPoint {
    /// The top left corner of the screen.
    pub fn origin() -> (p: ServerPoint)
        ensures
            p == ServerPoint::spec_origin(),
    {
        ServerPoint { x: Coord::whole(0), y: Coord::whole(0) }
    }

    pub open spec fn spec_origin() -> ServerPoint {
        ServerPoint { x: Coord { num: 0, den: 1 }, y: Coord { num: 0, den: 1 } }
    }
}

/// One axis of `ScreenSize::scale`: `position` times `server`, over `client`.
pub open spec fn scale_axis(position: u16, client: u16, server: u16) -> Coord {
    Coord { num: (position * server) as u32, den: client }
}

proof fn lemma_product_fits(a: u16, b: u16)
    ensures
        0 <= a * b <= 0xFFFE_0001,
        a * b <= u32::MAX,
{
    assert(0 <= a * b <= 0xFFFF * 0xFFFF) by (nonlinear_arith)
        requires
            0 <= a <= 0xFFFF,
            0 <= b <= 0xFFFF,
    ;
}

impl ScreenSize {
    /// Both resolutions set to the size of the captured display.  A dimension
    /// beyond 16 bits keeps its low 16 bits.
    pub fn of_display(width: u32, height: u32) -> (size: ScreenSize)
        ensures
            size.client == size.server,
            size.server == ((width % 0x1_0000) as u16, (height % 0x1_0000) as u16),
    {
        let w: u16 = (width % 0x1_0000) as u16;
        let h: u16 = (height % 0x1_0000) as u16;
        ScreenSize { client: (w, h), server: (w, h) }
    }

    /// Where the client-space point `(x, y)` lies in server space.
    pub open spec fn spec_scale(self, x: u16, y: u16) -> ServerPoint {
        ServerPoint {
            x: scale_axis(x, self.client.0, self.server.0),
            y: scale_axis(y, self.client.1, self.server.1),
        }
    }

    /// Rescales the client-space point `(x, y)` to server space by the ratio
    /// server / client, separately on each axis.
    pub fn scale(&self, x: u16, y: u16) -> (p: ServerPoint)
        ensures
            p == self.spec_scale(x, y),
            p.x.num == x * self.server.0,
            p.y.num == y * self.server.1,
    {
        proof {
            lemma_product_fits(x, self.server.0);
            lemma_product_fits(y, self.server.1);
        }
        ServerPoint {
            x: Coord { num: x as u32 * self.server.0 as u32, den: self.client.0 },
            y: Coord { num: y as u32 * self.server.1 as u32, den: self.client.1 },
        }
    }

    /// The size after the client announced `width` x `height`: only the client
    /// part differs.
    pub open spec fn with_client(self, width: u16, height: u16) -> ScreenSize {
        ScreenSize { client: (width, height), server: self.server }
    }

    /// Records the resolution that the client announced and tells whether it
    /// differs from the one recorded before.  The server part is never touched.
    pub fn set_client(&mut self, width: u16, height: u16) -> (changed: bool)
        ensures
            *final(self) == old(self).with_client(width, height),
            changed == (old(self).client != (width, height)),
            !changed ==> *final(self) == *old(self),
    {
        let changed = self.client.0 != width || self.client.1 != height;
        self.client = (width, height);
        changed
    }
}

/// Scaling keeps the order of coordinates: a point further right (or further
/// down) in client space is not further left (or up) in server space.
pub proof fn scale_is_monotonic(size: ScreenSize, x1: u16, y1: u16, x2: u16, y2: u16)
    ensures
        x1 <= x2 ==> size.spec_scale(x1, y1).x.le(size.spec_scale(x2, y2).x),
        y1 <= y2 ==> size.spec_scale(x1, y1).y.le(size.spec_scale(x2, y2).y),
        x1 <= x2 ==> size.spec_scale(x1, y1).x.num <= size.spec_scale(x2, y2).x.num,
        y1 <= y2 ==> size.spec_scale(x1, y1).y.num <= size.spec_scale(x2, y2).y.num,
{
    lemma_product_fits(x1, size.server.0);
    lemma_product_fits(x2, size.server.0);
    lemma_product_fits(y1, size.server.1);
    lemma_product_fits(y2, size.server.1);
    lemma_axis_monotonic(x1 as int, x2 as int, size.server.0 as int, size.client.0 as int);
    lemma_axis_monotonic(y1 as int, y2 as int, size.server.1 as int, size.client.1 as int);
}

proof fn lemma_axis_monotonic(a: int, b: int, server: int, client: int)
    by (nonlinear_arith)
    requires
        0 <= server,
        0 <= client,
    ensures
        a <= b ==> a * server <= b * server,
        a <= b ==> (a * server) * client <= (b * server) * client,
{
}

/// With equal client and server resolutions a point inside the screen scales to
/// itself.
pub proof fn scale_is_identity_on_equal_sizes(size: ScreenSize, x: u16, y: u16)
    requires
        size.client == size.server,
        x < size.server.0,
        y < size.server.1,
    ensures
        size.spec_scale(x, y).x.is_whole(x as int),
        size.spec_scale(x, y).y.is_whole(y as int),
{
    lemma_product_fits(x, size.server.0);
    lemma_product_fits(y, size.server.1);
}

/// A request to the capture loop.
#[derive(Debug, Clone, Copy, PartialEq, Eq, Structural)]
pub enum ScreenJob {
    Display(display::Job),
    Sound(sound::Job),
}

impl ScreenJob {
    /// Whether the job waits for an answer or guards a resource of the
    /// session, so that it may not be lost on a full queue.  A job that only
    /// brings news (a resolution, a wish for sound) may be dropped there.
    pub open spec fn spec_must_arrive(self) -> bool {
        match self {
            ScreenJob::Display(display::Job::SetSize(_, _)) => false,
            ScreenJob::Display(_) => true,
            ScreenJob::Sound(_) => false,
        }
    }

    /// Whether the job may not be lost on a full queue.
    pub fn must_arrive(&self) -> (must: bool)
        ensures
            must == self.spec_must_arrive(),
    {
        match self {
            ScreenJob::Display(display::Job::SetSize(_, _)) => false,
            ScreenJob::Display(_) => true,
            ScreenJob::Sound(_) => false,
        }
    }
}

/// Where one output of the capture session stands.
#[derive(Debug, Clone, Copy, PartialEq, Eq, Structural)]
pub enum OutputState {
    /// No output is attached.
    Idle,
    /// The session was asked to attach one and has not answered yet.
    Attaching,
    /// The output with this handle is attached.
    Attached(ScreenOutputIndex),
}

/// What the capture loop knows: the screen size, and where the display output
/// and the audio output stand.
#[derive(Debug, Clone, Copy)]
pub struct ContextState {
    pub display_size: ScreenSize,
    pub display: OutputState,
    pub audio: OutputState,
}

/// What the capture loop is to do for a display job.
#[derive(Debug, Clone, Copy, PartialEq, Eq)]
pub enum DisplayAction {
    /// Answer the request with this size.
    ReplySize(u16, u16),
    /// Tell the watchers of the screen size that it is now this.
    Notify(ScreenSize),
    /// Attach a display output to the session, then report how that went.
    Attach,
    /// Answer the request for frames with an error: frames are being produced
    /// already.
    Refuse,
    /// Detach the display output with this handle from the session.
    Detach(ScreenOutputIndex),
    /// Nothing.
    Nothing,
}

/// What the capture loop is to do for a sound job.
#[derive(Debug, Clone, Copy, PartialEq, Eq, Structural)]
pub enum SoundAction {
    /// Attach an audio output to the session, then report how that went.
    Attach,
    /// Detach the audio output with this handle from the session.
    Detach(ScreenOutputIndex),
    /// Nothing.
    Nothing,
}

/// What the capture loop is to do for a job.
#[derive(Debug, Clone, Copy, PartialEq, Eq)]
pub enum ScreenAction {
    Display(DisplayAction),
    Sound(SoundAction),
}

/// A request to start an output: granted, with the output on its way, only
/// when none is attached or on its way.
pub open spec fn start_output(output: OutputState) -> (OutputState, bool) {
    match output {
        OutputState::Idle => (OutputState::Attaching, true),
        _ => (output, false),
    }
}

/// The session's answer to a request to attach: with a handle the output is
/// attached, without one there is none, as before the request.  An answer that
/// nobody waits for changes nothing.
pub open spec fn output_attached(output: OutputState, outcome: Option<ScreenOutputIndex>) -> OutputState {
    match (output, outcome) {
        (OutputState::Attaching, Some(index)) => OutputState::Attached(index),
        (OutputState::Attaching, None) => OutputState::Idle,
        _ => output,
    }
}

/// A request to stop the output with the handle `index`: that output is
/// detached if it is the attached one; any other request changes nothing.
pub open spec fn stop_output(output: OutputState, index: ScreenOutputIndex) -> (
    OutputState,
    Option<ScreenOutputIndex>,
) {
    if output == OutputState::Attached(index) {
        (OutputState::Idle, Some(index))
    } else {
        (output, None)
    }
}

/// What a display job does to the state, and the action it asks for.
pub open spec fn display_step(state: ContextState, job: display::Job) -> (ContextState, DisplayAction) {
    match job {
        display::Job::GetSize => (
            state,
            DisplayAction::ReplySize(state.display_size.server.0, state.display_size.server.1),
        ),
        display::Job::SetSize(width, height) => {
            let size = state.display_size.with_client(width, height);
            (
                ContextState { display_size: size, ..state },
                if state.display_size.client != (width, height) {
                    DisplayAction::Notify(size)
                } else {
                    DisplayAction::Nothing
                },
            )
        },
        display::Job::CaptureStart => {
            let (display, granted) = start_output(state.display);
            (
                ContextState { display, ..state },
                if granted {
                    DisplayAction::Attach
                } else {
                    DisplayAction::Refuse
                },
            )
        },
        display::Job::CaptureStop(index) => {
            let (display, detach) = stop_output(state.display, index);
            (
                ContextState { display, ..state },
                match detach {
                    Some(index) => DisplayAction::Detach(index),
                    None => DisplayAction::Nothing,
                },
            )
        },
    }
}

/// What a sound job does to the state, and the action it asks for.  A `Stop`
/// stops whichever audio output is attached.
pub open spec fn sound_step(state: ContextState, job: sound::Job) -> (ContextState, SoundAction) {
    match job {
        sound::Job::Start => {
            let (audio, granted) = start_output(state.audio);
            (
                ContextState { audio, ..state },
                if granted {
                    SoundAction::Attach
                } else {
                    SoundAction::Nothing
                },
            )
        },
        sound::Job::Stop => match state.audio {
            OutputState::Attached(index) => (
                ContextState { audio: OutputState::Idle, ..state },
                SoundAction::Detach(index),
            ),
            _ => (state, SoundAction::Nothing),
        },
    }
}

/// What a job does to the state, and the action it asks for.
pub open spec fn screen_step(state: ContextState, job: ScreenJob) -> (ContextState, ScreenAction) {
    match job {
        ScreenJob::Display(job) => {
            let (next, action) = display_step(state, job);
            (next, ScreenAction::Display(action))
        },
        ScreenJob::Sound(job) => {
            let (next, action) = sound_step(state, job);
            (next, ScreenAction::Sound(action))
        },
    }
}

/// The state of the capture loop, which alone attaches outputs to the capture
/// session and detaches them.
///
/// It takes one job at a time and answers with the action to take.  Where the
/// action is to attach an output, the loop attaches it and reports the
/// session's answer before it takes the next job.
pub struct ScreenCaptureContext {
    display_size: ScreenSize,
    display: OutputState,
    audio: OutputState,
    capture_counter: IntervalCounter,
    send_counter: IntervalCounter,
}

impl View for ScreenCaptureContext {
    type V = ContextState;

    closed spec fn view(&self) -> ContextState {
        ContextState { display_size: self.display_size, display: self.display, audio: self.audio }
    }
}

impl ScreenCaptureContext {
    /// The counter of the rate at which frames are captured, which the
    /// producing side of every hand-off writes to.
    pub closed spec fn capture_rate(&self) -> IntervalCounter {
        self.capture_counter
    }

    /// The counter of the rate at which updates are handed out, which the
    /// consuming side of every hand-off writes to.
    pub closed spec fn send_rate(&self) -> IntervalCounter {
        self.send_counter
    }

    /// This context has the two counters that `before` has.
    pub open spec fn kept_counters(&self, before: ScreenCaptureContext) -> bool {
        &&& self.capture_rate() == before.capture_rate()
        &&& self.send_rate() == before.send_rate()
    }

    /// The context of a session that captures a display of `width` x `height`
    /// pixels, with nothing attached.  The client is taken to use the same
    /// resolution until it announces its own.
    pub fn new(
        width: u32,
        height: u32,
        capture_counter: IntervalCounter,
        send_counter: IntervalCounter,
    ) -> (context: Self)
        ensures
            context@.display == OutputState::Idle,
            context@.audio == OutputState::Idle,
            context@.display_size.client == context@.display_size.server,
            context@.display_size.server == ((width % 0x1_0000) as u16, (height % 0x1_0000) as u16),
            context.capture_rate() == capture_counter,
            context.send_rate() == send_counter,
    {
        Self {
            display_size: ScreenSize::of_display(width, height),
            display: OutputState::Idle,
            audio: OutputState::Idle,
            capture_counter,
            send_counter,
        }
    }

    /// What the loop knows at this moment.
    pub fn state(&self) -> (state: ContextState)
        ensures
            state == self@,
    {
        ContextState { display_size: self.display_size, display: self.display, audio: self.audio }
    }

    /// Takes one job of either kind.
    pub fn handle_job(&mut self, job: ScreenJob) -> (action: ScreenAction)
        ensures
            (final(self)@, action) == screen_step(old(self)@, job),
            final(self).kept_counters(*old(self)),
    {
        match job {
            ScreenJob::Display(job) => ScreenAction::Display(self.handle_display_job(job)),
            ScreenJob::Sound(job) => ScreenAction::Sound(self.handle_sound_job(job)),
        }
    }

    /// Takes one display job.
    ///
    /// `GetSize` is answered with the server's resolution.  `SetSize` records
    /// the client's resolution and notifies the watchers exactly when it differs
    /// from the one recorded.  `CaptureStart` asks for an output to be attached
    /// unless one is attached or on its way, in which case it is refused.
    /// `CaptureStop` detaches the output it names if that is the attached one.
    pub fn handle_display_job(&mut self, job: display::Job) -> (action: DisplayAction)
        ensures
            (final(self)@, action) == display_step(old(self)@, job),
            final(self)@.audio == old(self)@.audio,
            final(self).kept_counters(*old(self)),
    {
        match job {
            display::Job::GetSize => DisplayAction::ReplySize(
                self.display_size.server.0,
                self.display_size.server.1,
            ),
            display::Job::SetSize(width, height) => {
                if self.display_size.set_client(width, height) {
                    DisplayAction::Notify(self.display_size)
                } else {
                    DisplayAction::Nothing
                }
            },
            display::Job::CaptureStart => match self.display {
                OutputState::Idle => {
                    self.display = OutputState::Attaching;
                    DisplayAction::Attach
                },
                _ => DisplayAction::Refuse,
            },
            display::Job::CaptureStop(index) => match self.display {
                OutputState::Attached(attached) => {
                    if attached == index {
                        self.display = OutputState::Idle;
                        DisplayAction::Detach(index)
                    } else {
                        DisplayAction::Nothing
                    }
                },
                _ => DisplayAction::Nothing,
            },
        }
    }

    /// Makes the two sides of the frame hand-off for the display output that is
    /// about to be attached: frames of the server's resolution, with the
    /// capture rate counted on the producing side and the send rate on the
    /// consuming side.
    pub fn frame_relay(&self) -> (sides: (DisplayCaptureDelegate, PendingUpdates))
        ensures
            sides.0.staged().is_blank(self@.display_size.server.0, self@.display_size.server.1),
            sides.0.handed_over() is None,
            sides.0.rate() == self.capture_rate(),
            sides.1.shown().is_blank(self@.display_size.server.0, self@.display_size.server.1),
            sides.1.rate() == self.send_rate(),
    {
        frame_relay(
            self.display_size.server.0,
            self.display_size.server.1,
            self.capture_counter.clone(),
            self.send_counter.clone(),
        )
    }

    /// Takes the session's answer to the request to attach a display output:
    /// its handle, or `None` where the session refused.
    ///
    /// With a handle, where the answer was waited for, frames are being
    /// produced from now on and the result is their consuming side.  Without
    /// one the state is as it was before the request.
    pub fn display_attached(&mut self, outcome: Option<ScreenOutputIndex>, pending: PendingUpdates) -> (updates:
        Option<DisplayUpdates>)
        ensures
            final(self)@ == (ContextState {
                display: output_attached(old(self)@.display, outcome),
                ..old(self)@
            }),
            updates is Some <==> old(self)@.display == OutputState::Attaching && outcome is Some,
            updates matches Some(made) ==> made.spec_index() == outcome->0 && made.shown()
                == pending.shown() && made.rate() == pending.rate(),
            final(self).kept_counters(*old(self)),
    {
        match (self.display, outcome) {
            (OutputState::Attaching, Some(index)) => {
                self.display = OutputState::Attached(index);
                Some(pending.attached(index))
            },
            (OutputState::Attaching, None) => {
                self.display = OutputState::Idle;
                None
            },
            _ => None,
        }
    }

    /// Takes one sound job: `Start` asks for an audio output to be attached
    /// unless one is attached or on its way, `Stop` detaches the attached one.
    /// The display output is never touched.
    pub fn handle_sound_job(&mut self, job: sound::Job) -> (action: SoundAction)
        ensures
            (final(self)@, action) == sound_step(old(self)@, job),
            final(self)@.display == old(self)@.display,
            final(self)@.display_size == old(self)@.display_size,
            final(self).kept_counters(*old(self)),
    {
        match job {
            sound::Job::Start => match self.audio {
                OutputState::Idle => {
                    self.audio = OutputState::Attaching;
                    SoundAction::Attach
                },
                _ => SoundAction::Nothing,
            },
            sound::Job::Stop => match self.audio {
                OutputState::Attached(index) => {
                    self.audio = OutputState::Idle;
                    SoundAction::Detach(index)
                },
                _ => SoundAction::Nothing,
            },
        }
    }

    /// Takes the session's answer to the request to attach an audio output.
    pub fn audio_attached(&mut self, outcome: Option<ScreenOutputIndex>)
        ensures
            final(self)@ == (ContextState {
                audio: output_attached(old(self)@.audio, outcome),
                ..old(self)@
            }),
            final(self).kept_counters(*old(self)),
    {
        match (self.audio, outcome) {
            (OutputState::Attaching, Some(index)) => {
                self.audio = OutputState::Attached(index);
            },
            (OutputState::Attaching, None) => {
                self.audio = OutputState::Idle;
            },
            _ => {},
        }
    }
}

/// The state after `SetSize`, and whether the watchers are notified: they are
/// exactly when the announced resolution differs from the recorded one, and
/// announcing the same resolution again changes nothing and notifies nobody.
pub proof fn set_size_notifies_on_change_only(state: ContextState, width: u16, height: u16)
    ensures
        ({
            let (first, action) = display_step(state, display::Job::SetSize(width, height));
            let (second, again) = display_step(first, display::Job::SetSize(width, height));
            &&& action is Notify <==> state.display_size.client != (width, height)
            &&& action is Nothing <==> state.display_size.client == (width, height)
            &&& action matches DisplayAction::Notify(size) ==> size == first.display_size
            &&& first.display_size.client == (width, height)
            &&& first.display_size.server == state.display_size.server
            &&& first.display == state.display
            &&& first.audio == state.audio
            &&& again is Nothing
            &&& second == first
        }),
{
}

/// From a request for frames to the next request to stop, at most one output
/// is asked for: while one is attached, or on its way, every further request is
/// refused and changes nothing.
pub proof fn capture_start_attaches_once(state: ContextState, outcome: Option<ScreenOutputIndex>)
    ensures
        ({
            let (first, action) = display_step(state, display::Job::CaptureStart);
            let (second, again) = display_step(first, display::Job::CaptureStart);
            let answered = ContextState { display: output_attached(first.display, outcome), ..first };
            let (third, later) = display_step(answered, display::Job::CaptureStart);
            &&& action is Attach <==> state.display == OutputState::Idle
            &&& again is Refuse
            &&& second == first
            &&& outcome is Some ==> later is Refuse && third == answered
            &&& state.display == OutputState::Idle && outcome is None ==> answered == state
        }),
{
}

/// A request to stop detaches the output it names once: the first request
/// detaches it if it is the attached one, and a second request finds nothing to
/// detach.
pub proof fn capture_stop_detaches_once(state: ContextState, index: ScreenOutputIndex)
    ensures
        ({
            let (first, action) = display_step(state, display::Job::CaptureStop(index));
            let (second, again) = display_step(first, display::Job::CaptureStop(index));
            &&& action == DisplayAction::Detach(index) <==> state.display == OutputState::Attached(
                index,
            )
            &&& !(action is Detach) ==> action is Nothing && first == state
            &&& action is Detach ==> first.display == OutputState::Idle
            &&& again is Nothing
            &&& second == first
        }),
{
}

/// Display jobs leave the audio output alone, and sound jobs the display
/// output and the screen size.
pub proof fn display_and_sound_are_independent(
    state: ContextState,
    display_job: display::Job,
    sound_job: sound::Job,
)
    ensures
        display_step(state, display_job).0.audio == state.audio,
        sound_step(state, sound_job).0.display == state.display,
        sound_step(state, sound_job).0.display_size == state.display_size,
{
}

} // verus!
