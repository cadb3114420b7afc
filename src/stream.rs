use vstd::prelude::*;

use crate::kit::{
    flag_result, flag_result_of, frame_count_result, frame_count_result_of, pa_result_of,
    to_pa_result,
};
use crate::rpa_error::{error_of_code, PaError, PaResult};
use crate::types::{
    raw_parameters_match, tag_of, PaStreamCallbackFlags, PaStreamCallbackResult, PaStreamParameters,
    PaStreamTimeInfo, RawStreamParameters, SampleType, StreamFlags,
};

verus! {

/// Frames per buffer that lets the engine choose the number itself, which may
/// then differ from one callback invocation to the next.
pub const FRAMES_PER_BUFFER_UNSPECIFIED: u64 = 0;

/// Callback to consume, process or generate audio. The engine's real-time
/// thread runs it with the captured samples, room for the samples to play,
/// the time stamps and the status flags of the invocation, when
/// `StreamUserData::begin_frames` says to, and hands its answer to
/// `StreamUserData::end_frames`. It must neither block nor allocate, and
/// reports failure by returning `Abort`. It is the application's own code,
/// outside these proofs.
pub trait StreamCallback<I, O> {
    fn process(
        &mut self,
        input: &[I],
        output: &mut [O],
        time: PaStreamTimeInfo,
        flags: PaStreamCallbackFlags,
    ) -> PaStreamCallbackResult;
}

/// Callback run once each time a callback stream has finished, when
/// `StreamUserData::begin_finished` says to. It is the application's own
/// code, outside these proofs.
pub trait StreamFinishedCallback {
    fn finished(&mut self);
}

/// Where a stream stands in its life.
///
/// The errors of invalid steps are the engine's own codes:
/// starting a running stream gives `PaStreamIsNotStopped`, stopping or
/// aborting a stopped one `PaStreamIsStopped`, closing a running one whose
/// callback has not ended the run `PaStreamIsNotStopped`, and any operation
/// on a closed stream `PaBadStreamPtr`. None of them reaches the engine. A
/// running stream whose callback has ended the run with `Complete` or `Abort`
/// can be closed as a stopped one can.
#[derive(PartialEq, Eq, Structural, Copy, Clone, Debug)]
pub enum StreamState {
    Stopped,
    Running,
    Closed,
}

/// Number of samples in `frames` frames of `channels` channels, if it fits in
/// a `usize`.
pub fn sample_count(frames: u64, channels: u32) -> (r: Option<usize>)
    ensures
        r is Some <==> frames * channels <= usize::MAX,
        r matches Some(n) ==> n == frames * channels,
{
    if frames > usize::MAX as u64 {
        proof {
            if channels > 0 {
                assert(frames * channels >= frames) by (nonlinear_arith)
                    requires
                        channels >= 1,
                ;
            }
        }
        if channels == 0 {
            return Some(0);
        }
        return None;
    }
    (frames as usize).checked_mul(channels as usize)
}

/// The per-stream state shared, by reference only, between a stream and the
/// engine's real-time thread: the declared channel counts, the callbacks, and
/// the result that ended the current run of the per-frame callback.
#[verifier::reject_recursive_types(I)]
#[verifier::reject_recursive_types(O)]
pub struct StreamUserData<'a, I, O> {
    num_input: u32,
    num_output: u32,
    callback: Option<Box<dyn StreamCallback<I, O> + 'a>>,
    finished_callback: Option<Box<dyn StreamFinishedCallback + 'a>>,
    outcome: Option<PaStreamCallbackResult>,
    callback_runs: Ghost<nat>,
    finished_runs: Ghost<nat>,
}

impl<'a, I, O> StreamUserData<'a, I, O> {
    /// Declared number of input channels.
    pub closed spec fn num_input(&self) -> u32 {
        self.num_input
    }

    /// Declared number of output channels.
    pub closed spec fn num_output(&self) -> u32 {
        self.num_output
    }

    /// A per-frame callback is installed.
    pub closed spec fn has_callback(&self) -> bool {
        self.callback is Some
    }

    /// A completion callback is installed.
    pub closed spec fn has_finished_callback(&self) -> bool {
        self.finished_callback is Some
    }

    /// The result that ended the current run, if the run has ended.
    pub closed spec fn outcome(&self) -> Option<PaStreamCallbackResult> {
        self.outcome
    }

    /// The installed per-frame callback, if any.
    pub closed spec fn callback(&self) -> Option<Box<dyn StreamCallback<I, O> + 'a>> {
        self.callback
    }

    /// The installed completion callback, if any.
    pub closed spec fn finished_callback(&self) -> Option<Box<dyn StreamFinishedCallback + 'a>> {
        self.finished_callback
    }

    /// How many times the per-frame callback has been run.
    pub closed spec fn callback_runs(&self) -> nat {
        self.callback_runs@
    }

    /// How many times the completion callback has been run.
    pub closed spec fn finished_runs(&self) -> nat {
        self.finished_runs@
    }

    /// Makes the state of a new stream; no run has ended yet.
    pub fn new(
        num_input: u32,
        num_output: u32,
        callback: Option<Box<dyn StreamCallback<I, O> + 'a>>,
    ) -> (r: StreamUserData<'a, I, O>)
        ensures
            r.num_input() == num_input,
            r.num_output() == num_output,
            r.has_callback() == (callback is Some),
            !r.has_finished_callback(),
            r.outcome() is None,
            r.callback_runs() == 0,
            r.finished_runs() == 0,
    {
        StreamUserData {
            num_input,
            num_output,
            callback,
            finished_callback: None,
            outcome: None,
            callback_runs: Ghost(0),
            finished_runs: Ghost(0),
        }
    }

    /// Declared number of input channels.
    pub fn input_channels(&self) -> (r: u32)
        ensures
            r == self.num_input(),
    {
        self.num_input
    }

    /// Declared number of output channels.
    pub fn output_channels(&self) -> (r: u32)
        ensures
            r == self.num_output(),
    {
        self.num_output
    }

    /// Lengths of the input and output sample buffers of an invocation for
    /// `frames` frames, if both fit in a `usize`.
    pub fn buffer_lengths(&self, frames: u64) -> (r: Option<(usize, usize)>)
        ensures
            r is Some <==> (frames * self.num_input() <= usize::MAX && frames * self.num_output()
                <= usize::MAX),
            r matches Some(p) ==> p.0 == frames * self.num_input() && p.1 == frames
                * self.num_output(),
    {
        match (sample_count(frames, self.num_input), sample_count(frames, self.num_output)) {
            (Some(a), Some(b)) => Some((a, b)),
            _ => None,
        }
    }

    /// Decides an invocation by the engine's real-time thread. `Some(answer)`
    /// is given to the engine at once, without running the per-frame
    /// callback: the result that ended the run, once a run has ended, or
    /// `Abort` when no callback is installed (which ends the run). `None` says
    /// to run the callback and hand its answer to `end_frames`.
    pub fn begin_frames(&mut self) -> (r: Option<PaStreamCallbackResult>)
        ensures
            begin_step(*old(self), *final(self), r),
    {
        if let Some(done) = self.outcome {
            return Some(done);
        }
        if self.callback.is_none() {
            self.outcome = Some(PaStreamCallbackResult::Abort);
            return Some(PaStreamCallbackResult::Abort);
        }
        None
    }

    /// Takes the per-frame callback's answer and returns it verbatim for the
    /// engine; `Complete` or `Abort` ends the run.
    pub fn end_frames(&mut self, answer: PaStreamCallbackResult) -> (r: PaStreamCallbackResult)
        requires
            old(self).outcome() is None,
        ensures
            end_step(*old(self), *final(self), answer, r),
    {
        self.callback_runs = Ghost(self.callback_runs@ + 1);
        match answer {
            PaStreamCallbackResult::Continue => {},
            _ => {
                self.outcome = Some(answer);
            },
        }
        answer
    }

    /// The installed per-frame callback, to run when `begin_frames` says so.
    pub fn callback_mut(&mut self) -> (r: &mut Option<Box<dyn StreamCallback<I, O> + 'a>>)
        ensures
            *r == old(self).callback(),
            final(self).callback() == *final(r),
            final(self).has_callback() == (*final(r) is Some),
            same_context_but_callbacks(*old(self), *final(self)),
            final(self).finished_callback() == old(self).finished_callback(),
    {
        &mut self.callback
    }

    /// Decides the engine's notice that the stream has finished: whether to
    /// run the completion callback, once, which is so when one is installed.
    pub fn begin_finished(&mut self) -> (run: bool)
        ensures
            finished_step(*old(self), *final(self), run),
    {
        let run = self.finished_callback.is_some();
        if run {
            self.finished_runs = Ghost(self.finished_runs@ + 1);
        }
        run
    }

    /// The installed completion callback, to run when `begin_finished` says so.
    pub fn finished_callback_mut(&mut self) -> (r: &mut Option<Box<dyn StreamFinishedCallback + 'a>>)
        ensures
            *r == old(self).finished_callback(),
            final(self).finished_callback() == *final(r),
            final(self).has_finished_callback() == (*final(r) is Some),
            same_context_but_callbacks(*old(self), *final(self)),
            final(self).has_callback() == old(self).has_callback(),
            final(self).callback() == old(self).callback(),
    {
        &mut self.finished_callback
    }

    /// Installs a completion callback, in place of any earlier one.
    pub fn set_finished_callback(&mut self, finished_callback: Box<dyn StreamFinishedCallback + 'a>)
        ensures
            same_except_finished(*old(self), *final(self)),
            final(self).finished_callback() == Some(finished_callback),
            final(self).has_finished_callback(),
    {
        let installed = Some(finished_callback);
        self.finished_callback = installed;
    }

    /// Removes any completion callback.
    pub fn unset_finished_callback(&mut self)
        ensures
            same_except_finished(*old(self), *final(self)),
            !final(self).has_finished_callback(),
    {
        self.finished_callback = None;
    }

    /// Starts a new run: the per-frame callback runs again.
    fn rearm(&mut self)
        ensures
            same_context_but_outcome(*old(self), *final(self)),
            final(self).outcome() is None,
    {
        self.outcome = None;
    }
}

/// The two states agree in everything but the completion callback.
pub open spec fn same_except_finished<'a, I, O>(
    pre: StreamUserData<'a, I, O>,
    post: StreamUserData<'a, I, O>,
) -> bool {
    &&& post.num_input() == pre.num_input()
    &&& post.num_output() == pre.num_output()
    &&& post.has_callback() == pre.has_callback()
    &&& post.outcome() == pre.outcome()
    &&& post.callback_runs() == pre.callback_runs()
    &&& post.finished_runs() == pre.finished_runs()
}

/// The two contexts agree in everything but the installed callbacks.
pub open spec fn same_context_but_callbacks<'a, I, O>(
    pre: StreamUserData<'a, I, O>,
    post: StreamUserData<'a, I, O>,
) -> bool {
    &&& post.num_input() == pre.num_input()
    &&& post.num_output() == pre.num_output()
    &&& post.outcome() == pre.outcome()
    &&& post.callback_runs() == pre.callback_runs()
    &&& post.finished_runs() == pre.finished_runs()
}

/// Deciding an invocation took `pre` to `post` with decision `r`.
pub open spec fn begin_step<'a, I, O>(
    pre: StreamUserData<'a, I, O>,
    post: StreamUserData<'a, I, O>,
    r: Option<PaStreamCallbackResult>,
) -> bool {
    match pre.outcome() {
        Some(done) => r == Some(done) && post == pre,
        None => if pre.has_callback() {
            r is None && post == pre
        } else {
            &&& r == Some(PaStreamCallbackResult::Abort)
            &&& post.outcome() == Some(PaStreamCallbackResult::Abort)
            &&& same_context_but_outcome(pre, post)
            &&& post.callback() == pre.callback()
            &&& post.finished_callback() == pre.finished_callback()
        },
    }
}

/// Taking the callback's `answer` took `pre` to `post` and returned `r`.
pub open spec fn end_step<'a, I, O>(
    pre: StreamUserData<'a, I, O>,
    post: StreamUserData<'a, I, O>,
    answer: PaStreamCallbackResult,
    r: PaStreamCallbackResult,
) -> bool {
    &&& r == answer
    &&& post.num_input() == pre.num_input()
    &&& post.num_output() == pre.num_output()
    &&& post.callback() == pre.callback()
    &&& post.finished_callback() == pre.finished_callback()
    &&& post.has_callback() == pre.has_callback()
    &&& post.has_finished_callback() == pre.has_finished_callback()
    &&& post.finished_runs() == pre.finished_runs()
    &&& post.callback_runs() == pre.callback_runs() + 1
    &&& post.outcome() == (if answer == PaStreamCallbackResult::Continue {
        None
    } else {
        Some(answer)
    })
}

/// Deciding the engine's notice of the end of the stream took `pre` to
/// `post`, with `run` saying whether to run the completion callback.
pub open spec fn finished_step<'a, I, O>(
    pre: StreamUserData<'a, I, O>,
    post: StreamUserData<'a, I, O>,
    run: bool,
) -> bool {
    &&& run == pre.has_finished_callback()
    &&& post.num_input() == pre.num_input()
    &&& post.num_output() == pre.num_output()
    &&& post.callback() == pre.callback()
    &&& post.finished_callback() == pre.finished_callback()
    &&& post.has_callback() == pre.has_callback()
    &&& post.has_finished_callback() == pre.has_finished_callback()
    &&& post.outcome() == pre.outcome()
    &&& post.callback_runs() == pre.callback_runs()
    &&& post.finished_runs() == pre.finished_runs() + (if run {
        1nat
    } else {
        0nat
    })
}

/// Once an invocation has been answered `Abort`, whether the callback gave
/// that answer or none was installed, every later invocation is answered
/// `Abort` at once: the callback is not run and the context does not change.
pub proof fn lemma_no_run_after_abort<'a, I, O>(
    s0: StreamUserData<'a, I, O>,
    s1: StreamUserData<'a, I, O>,
    s2: StreamUserData<'a, I, O>,
    later: Option<PaStreamCallbackResult>,
)
    requires
        end_step(s0, s1, PaStreamCallbackResult::Abort, PaStreamCallbackResult::Abort)
            || begin_step(s0, s1, Some(PaStreamCallbackResult::Abort)),
        begin_step(s1, s2, later),
    ensures
        later == Some(PaStreamCallbackResult::Abort),
        s2 == s1,
        s2.callback_runs() == s1.callback_runs(),
{
}

/// With the completion callback removed, the end of the stream runs no callback.
pub proof fn lemma_unset_then_finish_runs_nothing<'a, I, O>(
    s0: StreamUserData<'a, I, O>,
    s1: StreamUserData<'a, I, O>,
    s2: StreamUserData<'a, I, O>,
    run: bool,
)
    requires
        same_except_finished(s0, s1),
        !s1.has_finished_callback(),
        finished_step(s1, s2, run),
    ensures
        !run,
        s2.finished_runs() == s0.finished_runs(),
        s2.callback_runs() == s0.callback_runs(),
{
}

/// The two contexts agree in everything but the result that ended the run.
pub open spec fn same_context_but_outcome<'a, I, O>(
    pre: StreamUserData<'a, I, O>,
    post: StreamUserData<'a, I, O>,
) -> bool {
    &&& post.num_input() == pre.num_input()
    &&& post.num_output() == pre.num_output()
    &&& post.has_callback() == pre.has_callback()
    &&& post.has_finished_callback() == pre.has_finished_callback()
    &&& post.callback_runs() == pre.callback_runs()
    &&& post.finished_runs() == pre.finished_runs()
}

/// Channel count of an optional direction; an absent one has none.
pub open spec fn channels_of<T>(p: Option<PaStreamParameters<T>>) -> u32 {
    match p {
        Some(x) => x.channel_count,
        None => 0,
    }
}

/// The engine's form of optional parameters matches them.
pub open spec fn raw_option_match<T: SampleType>(
    raw: Option<RawStreamParameters>,
    p: Option<PaStreamParameters<T>>,
) -> bool {
    match (raw, p) {
        (Some(a), Some(b)) => raw_parameters_match(a, b),
        (None, None) => true,
        _ => false,
    }
}

/// What the engine needs to open a stream, but for the sample rate: the
/// parameters of each direction, the frames per buffer, the stream flags as
/// bits, whether to drive it by callback, and the context that the engine's
/// real-time thread receives by reference.
#[verifier::reject_recursive_types(I)]
#[verifier::reject_recursive_types(O)]
pub struct OpenRequest<'a, I, O> {
    pub input: Option<RawStreamParameters>,
    pub output: Option<RawStreamParameters>,
    pub frames_per_buffer: u64,
    pub flags: u64,
    pub uses_callback: bool,
    pub user_data: Box<StreamUserData<'a, I, O>>,
}

/// What the engine needs to open a stream on its default devices, but for
/// the sample rate.
#[verifier::reject_recursive_types(T)]
pub struct DefaultOpenRequest<'a, T> {
    pub num_input_channels: i32,
    pub num_output_channels: i32,
    pub sample_format: u64,
    pub frames_per_buffer: u64,
    pub uses_callback: bool,
    pub user_data: Box<StreamUserData<'a, T, T>>,
}

/// The stream that an open request gives once the engine has answered `code`.
pub open spec fn open_result_ok<'a, I, O>(
    context: StreamUserData<'a, I, O>,
    code: i32,
    r: Result<Stream<'a, I, O>, PaError>,
) -> bool {
    if code == 0 {
        &&& r is Ok
        &&& r->Ok_0.state() == StreamState::Stopped
        &&& r->Ok_0.inputs() == context.num_input()
        &&& r->Ok_0.outputs() == context.num_output()
        &&& r->Ok_0.context() == context
        &&& r->Ok_0.wf()
    } else {
        r == Err::<Stream<'a, I, O>, PaError>(error_of_code(code))
    }
}

impl<'a, I, O> OpenRequest<'a, I, O> {
    /// The context handed to the engine.
    pub open spec fn context(&self) -> StreamUserData<'a, I, O> {
        *self.user_data
    }


    /// Takes the engine's answer to the open request: the no-error code gives
    /// the stream, stopped; any other code is the error of that code.
    pub fn complete(self, code: i32) -> (r: Result<Stream<'a, I, O>, PaError>)
        ensures
            open_result_ok(self.context(), code, r),
    {
        match to_pa_result(code) {
            Ok(()) => {
                let inputs = self.user_data.input_channels();
                let outputs = self.user_data.output_channels();
                Ok(Stream { inputs, outputs, state: StreamState::Stopped, user_data: self.user_data })
            },
            Err(e) => Err(e),
        }
    }
}

impl<'a, T> DefaultOpenRequest<'a, T> {
    /// The context handed to the engine.
    pub open spec fn context(&self) -> StreamUserData<'a, T, T> {
        *self.user_data
    }


    /// Takes the engine's answer to the open request: the no-error code gives
    /// the stream, stopped; any other code is the error of that code.
    pub fn complete(self, code: i32) -> (r: Result<Stream<'a, T, T>, PaError>)
        ensures
            open_result_ok(self.context(), code, r),
    {
        match to_pa_result(code) {
            Ok(()) => {
                let inputs = self.user_data.input_channels();
                let outputs = self.user_data.output_channels();
                Ok(Stream { inputs, outputs, state: StreamState::Stopped, user_data: self.user_data })
            },
            Err(e) => Err(e),
        }
    }
}

/// What a blocking read gives once the engine has handed back `out`: the
/// engine's error, or the buffer when it has exactly `len` samples.
pub open spec fn read_outcome<I>(out: (Vec<I>, i32), len: int) -> Result<Vec<I>, PaError> {
    if out.1 != 0 {
        Err(error_of_code(out.1))
    } else if out.0@.len() != len {
        Err(PaError::PaInternalError)
    } else {
        Ok(out.0)
    }
}

/// An audio stream with input samples of type `I` and output samples of
/// type `O`. It owns the context that the engine's real-time thread uses, and
/// keeps it until the stream is dropped, after `close`.
#[verifier::reject_recursive_types(I)]
#[verifier::reject_recursive_types(O)]
pub struct Stream<'a, I, O> {
    inputs: u32,
    outputs: u32,
    state: StreamState,
    user_data: Box<StreamUserData<'a, I, O>>,
}

/// The stream is unchanged but for its state and the result that ended the run.
pub open spec fn same_stream<'a, I, O>(pre: Stream<'a, I, O>, post: Stream<'a, I, O>) -> bool {
    &&& post.inputs() == pre.inputs()
    &&& post.outputs() == pre.outputs()
    &&& post.wf() == pre.wf()
    &&& same_context_but_outcome(pre.context(), post.context())
}

impl<'a, I, O> Stream<'a, I, O> {
    /// Declared number of input channels.
    pub closed spec fn inputs(&self) -> u32 {
        self.inputs
    }

    /// Declared number of output channels.
    pub closed spec fn outputs(&self) -> u32 {
        self.outputs
    }

    /// Where the stream stands in its life.
    pub closed spec fn state(&self) -> StreamState {
        self.state
    }

    /// The context shared with the engine's real-time thread.
    pub closed spec fn context(&self) -> StreamUserData<'a, I, O> {
        *self.user_data
    }

    /// The context holds the stream's own channel counts.
    pub closed spec fn wf(&self) -> bool {
        &&& self.user_data.num_input() == self.inputs
        &&& self.user_data.num_output() == self.outputs
    }

    /// Prepares a stream with the given input and output specifications, frames
    /// per buffer and flags; a direction without a specification has no
    /// channels. The engine opens it from the
    /// request, and the request's `complete` takes the engine's answer.
    pub fn open(
        input: Option<PaStreamParameters<I>>,
        output: Option<PaStreamParameters<O>>,
        frames_per_buffer: u64,
        flags: StreamFlags,
        callback: Option<Box<dyn StreamCallback<I, O> + 'a>>,
    ) -> (r: OpenRequest<'a, I, O>) where I: SampleType, O: SampleType
        ensures
            raw_option_match(r.input, input),
            raw_option_match(r.output, output),
            r.frames_per_buffer == frames_per_buffer,
            r.flags == flags@,
            r.uses_callback == (callback is Some),
            r.context().num_input() == channels_of(input),
            r.context().num_output() == channels_of(output),
            r.context().has_callback() == (callback is Some),
            !r.context().has_finished_callback(),
            r.context().outcome() is None,
            r.context().callback_runs() == 0,
            r.context().finished_runs() == 0,
    {
        let uses_callback = callback.is_some();
        let (input_cnt, input_raw) = match input {
            Some(sp) => (sp.channel_count, Some(sp.to_raw())),
            None => (0, None),
        };
        let (output_cnt, output_raw) = match output {
            Some(sp) => (sp.channel_count, Some(sp.to_raw())),
            None => (0, None),
        };
        let user_data = Box::new(StreamUserData::new(input_cnt, output_cnt, callback));
        OpenRequest {
            input: input_raw,
            output: output_raw,
            frames_per_buffer,
            flags: flags.bits(),
            uses_callback,
            user_data,
        }
    }

    /// Declared number of input channels.
    pub fn num_input_channels(&self) -> (r: u32)
        ensures
            r == self.inputs(),
    {
        self.inputs
    }

    /// Declared number of output channels.
    pub fn num_output_channels(&self) -> (r: u32)
        ensures
            r == self.outputs(),
    {
        self.outputs
    }

    /// Where the stream stands in its life.
    pub fn stream_state(&self) -> (r: StreamState)
        ensures
            r == self.state(),
    {
        self.state
    }

    /// Starts a stopped stream; `engine_start` asks the engine. A successful
    /// start begins a new run of the per-frame callback.
    pub fn start<E: FnOnce() -> i32>(&mut self, engine_start: E) -> (r: PaResult)
        requires
            old(self).state() == StreamState::Stopped ==> engine_start.requires(()),
        ensures
            same_stream(*old(self), *final(self)),
            old(self).state() == StreamState::Closed ==> r == Err::<(), PaError>(
                PaError::PaBadStreamPtr,
            ) && *final(self) == *old(self),
            old(self).state() == StreamState::Running ==> r == Err::<(), PaError>(
                PaError::PaStreamIsNotStopped,
            ) && *final(self) == *old(self),
            old(self).state() == StreamState::Stopped ==> (exists|code: i32|
                engine_start.ensures((), code) && r == pa_result_of(code)),
            old(self).state() == StreamState::Stopped && r is Ok ==> final(self).state()
                == StreamState::Running && final(self).context().outcome() is None,
            old(self).state() == StreamState::Stopped && r is Err ==> *final(self) == *old(self),
    {
        match self.state {
            StreamState::Closed => Err(PaError::PaBadStreamPtr),
            StreamState::Running => Err(PaError::PaStreamIsNotStopped),
            StreamState::Stopped => {
                let r = to_pa_result(engine_start());
                if r.is_ok() {
                    self.user_data.rearm();
                    self.state = StreamState::Running;
                }
                r
            },
        }
    }

    /// Stops a running stream once all buffered audio has played;
    /// `engine_stop` asks the engine, which blocks until then.
    pub fn stop<E: FnOnce() -> i32>(&mut self, engine_stop: E) -> (r: PaResult)
        requires
            old(self).state() == StreamState::Running ==> engine_stop.requires(()),
        ensures
            halt_step(*old(self), *final(self), r),
            old(self).state() == StreamState::Running ==> (exists|code: i32|
                engine_stop.ensures((), code) && r == pa_result_of(code)),
    {
        self.halt(engine_stop)
    }

    /// Stops a running stream as soon as possible, discarding buffered audio;
    /// `engine_abort` asks the engine.
    pub fn abort<E: FnOnce() -> i32>(&mut self, engine_abort: E) -> (r: PaResult)
        requires
            old(self).state() == StreamState::Running ==> engine_abort.requires(()),
        ensures
            halt_step(*old(self), *final(self), r),
            old(self).state() == StreamState::Running ==> (exists|code: i32|
                engine_abort.ensures((), code) && r == pa_result_of(code)),
    {
        self.halt(engine_abort)
    }

    fn halt<E: FnOnce() -> i32>(&mut self, engine_halt: E) -> (r: PaResult)
        requires
            old(self).state() == StreamState::Running ==> engine_halt.requires(()),
        ensures
            halt_step(*old(self), *final(self), r),
            old(self).state() == StreamState::Running ==> (exists|code: i32|
                engine_halt.ensures((), code) && r == pa_result_of(code)),
    {
        match self.state {
            StreamState::Closed => Err(PaError::PaBadStreamPtr),
            StreamState::Stopped => Err(PaError::PaStreamIsStopped),
            StreamState::Running => {
                let r = to_pa_result(engine_halt());
                if r.is_ok() {
                    self.state = StreamState::Stopped;
                }
                r
            },
        }
    }

    /// The stream can be closed: it is stopped, or its per-frame callback has
    /// ended the run with `Complete` or `Abort`.
    pub open spec fn closable(&self) -> bool {
        ||| self.state() == StreamState::Stopped
        ||| self.state() == StreamState::Running && self.context().outcome() is Some
    }

    /// Closes a stream that is stopped or whose callback has ended the run;
    /// `engine_close` asks the engine, which then issues no further callback
    /// invocations. Closing must be the last operation: a stream that is
    /// still running must be stopped first.
    pub fn close<E: FnOnce() -> i32>(&mut self, engine_close: E) -> (r: PaResult)
        requires
            old(self).closable() ==> engine_close.requires(()),
        ensures
            same_stream(*old(self), *final(self)),
            final(self).context().outcome() == old(self).context().outcome(),
            old(self).state() == StreamState::Closed ==> r == Err::<(), PaError>(
                PaError::PaBadStreamPtr,
            ) && *final(self) == *old(self),
            old(self).state() == StreamState::Running && !old(self).closable() ==> r == Err::<
                (),
                PaError,
            >(PaError::PaStreamIsNotStopped) && *final(self) == *old(self),
            old(self).closable() ==> (exists|code: i32|
                engine_close.ensures((), code) && r == pa_result_of(code)),
            old(self).closable() ==> final(self).state() == (if r is Ok {
                StreamState::Closed
            } else {
                old(self).state()
            }),
    {
        match self.state {
            StreamState::Closed => Err(PaError::PaBadStreamPtr),
            StreamState::Running if self.user_data.outcome.is_none() => Err(
                PaError::PaStreamIsNotStopped,
            ),
            _ => {
                let r = to_pa_result(engine_close());
                if r.is_ok() {
                    self.state = StreamState::Closed;
                }
                r
            },
        }
    }

    /// Whether the stream is stopped; `engine_query` asks the engine.
    pub fn is_stopped<E: FnOnce() -> i32>(&self, engine_query: E) -> (r: Result<bool, PaError>)
        requires
            self.state() != StreamState::Closed ==> engine_query.requires(()),
        ensures
            query_step(self.state(), engine_query, r),
    {
        match self.state {
            StreamState::Closed => Err(PaError::PaBadStreamPtr),
            _ => flag_result(engine_query()),
        }
    }

    /// Whether the stream is active; `engine_query` asks the engine.
    pub fn is_active<E: FnOnce() -> i32>(&self, engine_query: E) -> (r: Result<bool, PaError>)
        requires
            self.state() != StreamState::Closed ==> engine_query.requires(()),
        ensures
            query_step(self.state(), engine_query, r),
    {
        match self.state {
            StreamState::Closed => Err(PaError::PaBadStreamPtr),
            _ => flag_result(engine_query()),
        }
    }

    /// Number of frames that can be read without waiting; `engine_query` asks
    /// the engine.
    pub fn num_read_available<E: FnOnce() -> i64>(&self, engine_query: E) -> (r: Result<u32, PaError>)
        requires
            self.state() != StreamState::Closed ==> engine_query.requires(()),
        ensures
            frame_query_step(self.state(), engine_query, r),
    {
        match self.state {
            StreamState::Closed => Err(PaError::PaBadStreamPtr),
            _ => frame_count_result(engine_query()),
        }
    }

    /// Number of frames that can be written without waiting; `engine_query`
    /// asks the engine.
    pub fn num_write_available<E: FnOnce() -> i64>(&self, engine_query: E) -> (r: Result<u32, PaError>)
        requires
            self.state() != StreamState::Closed ==> engine_query.requires(()),
        ensures
            frame_query_step(self.state(), engine_query, r),
    {
        match self.state {
            StreamState::Closed => Err(PaError::PaBadStreamPtr),
            _ => frame_count_result(engine_query()),
        }
    }

    /// Writes the buffer to the stream; `engine_write` hands the buffer and its
    /// number of frames to the engine, which blocks until it has taken them.
    /// A stream without output channels gives
    /// `PaCanNotWriteToAnInputOnlyStream`, and a buffer that is not a whole
    /// number of frames gives `PaBadBufferPtr`; neither reaches the engine.
    pub fn write<E: FnOnce(&[O], u64) -> i32>(&self, buffer: &[O], engine_write: E) -> (r: PaResult)
        requires
            self.state() != StreamState::Closed && self.outputs() > 0 && buffer@.len() % (
            self.outputs() as nat) == 0 ==> engine_write.requires(
                (buffer, (buffer@.len() / (self.outputs() as nat)) as u64),
            ),
        ensures
            self.state() == StreamState::Closed ==> r == Err::<(), PaError>(PaError::PaBadStreamPtr),
            self.state() != StreamState::Closed && self.outputs() == 0 ==> r == Err::<(), PaError>(
                PaError::PaCanNotWriteToAnInputOnlyStream,
            ),
            self.state() != StreamState::Closed && self.outputs() > 0 && buffer@.len()
                % (self.outputs() as nat) != 0 ==> r == Err::<(), PaError>(PaError::PaBadBufferPtr),
            self.state() != StreamState::Closed && self.outputs() > 0 && buffer@.len()
                % (self.outputs() as nat) == 0 ==> (exists|code: i32|
                engine_write.ensures(
                    (buffer, (buffer@.len() / (self.outputs() as nat)) as u64),
                    code,
                ) && r == pa_result_of(code)),
    {
        if let StreamState::Closed = self.state {
            return Err(PaError::PaBadStreamPtr);
        }
        if self.outputs == 0 {
            return Err(PaError::PaCanNotWriteToAnInputOnlyStream);
        }
        if buffer.len() % self.outputs as usize != 0 {
            return Err(PaError::PaBadBufferPtr);
        }
        let frames = (buffer.len() / self.outputs as usize) as u64;
        to_pa_result(engine_write(buffer, frames))
    }

    /// Reads `frames` frames from the input; `engine_read` hands a buffer of
    /// exactly that many frames to the engine, which blocks until it has
    /// filled it, and gives it back with its status code. A stream without
    /// input channels gives `PaCanNotReadFromAnOutputOnlyStream` without
    /// reaching the engine, and a request too large to hold gives
    /// `PaInsufficientMemory`. On failure no buffer is handed back.
    pub fn read<E: FnOnce(Vec<I>, u64) -> (Vec<I>, i32)>(&self, frames: u32, engine_read: E) -> (r:
        Result<Vec<I>, PaError>) where I: Default
        requires
            self.state() != StreamState::Closed && self.inputs() > 0 && frames * self.inputs()
                <= usize::MAX ==> forall|buf: Vec<I>|
                buf@.len() == frames * self.inputs() ==> #[trigger] engine_read.requires(
                    (buf, frames as u64),
                ),
        ensures
            self.state() == StreamState::Closed ==> r == Err::<Vec<I>, PaError>(
                PaError::PaBadStreamPtr,
            ),
            self.state() != StreamState::Closed && self.inputs() == 0 ==> r == Err::<
                Vec<I>,
                PaError,
            >(PaError::PaCanNotReadFromAnOutputOnlyStream),
            self.state() != StreamState::Closed && self.inputs() > 0 && frames * self.inputs()
                > usize::MAX ==> r == Err::<Vec<I>, PaError>(PaError::PaInsufficientMemory),
            self.state() != StreamState::Closed && self.inputs() > 0 && frames * self.inputs()
                <= usize::MAX ==> (exists|buf: Vec<I>, out: (Vec<I>, i32)|
                buf@.len() == frames * self.inputs() && #[trigger] engine_read.ensures(
                    (buf, frames as u64),
                    out,
                ) && r == read_outcome(out, frames * self.inputs())),
            r matches Ok(v) ==> v@.len() == frames * self.inputs(),
    {
        if let StreamState::Closed = self.state {
            return Err(PaError::PaBadStreamPtr);
        }
        if self.inputs == 0 {
            return Err(PaError::PaCanNotReadFromAnOutputOnlyStream);
        }
        let len = match sample_count(frames as u64, self.inputs) {
            Some(n) => n,
            None => {
                return Err(PaError::PaInsufficientMemory);
            },
        };
        let mut buffer: Vec<I> = Vec::new();
        let mut i: usize = 0;
        while i < len
            invariant
                i <= len,
                buffer@.len() == i,
            decreases len - i,
        {
            buffer.push(I::default());
            i = i + 1;
        }
        let ghost handed = buffer;
        let out = engine_read(buffer, frames as u64);
        let (filled, code) = out;
        if code != 0 {
            return Err(PaError::from_i32(code));
        }
        if filled.len() != len {
            return Err(PaError::PaInternalError);
        }
        proof {
            assert(engine_read.ensures((handed, frames as u64), out));
        }
        Ok(filled)
    }

    /// Installs a completion callback, run once when a callback stream has
    /// finished; `engine_install` tells the engine to call it (`true`).
    pub fn set_finished_callback<E: FnOnce(bool) -> i32>(
        &mut self,
        finished_callback: Box<dyn StreamFinishedCallback + 'a>,
        engine_install: E,
    ) -> (r: PaResult)
        requires
            old(self).state() != StreamState::Closed ==> engine_install.requires((true,)),
        ensures
            final(self).state() == old(self).state(),
            final(self).inputs() == old(self).inputs(),
            final(self).outputs() == old(self).outputs(),
            final(self).wf() == old(self).wf(),
            old(self).state() == StreamState::Closed ==> r == Err::<(), PaError>(
                PaError::PaBadStreamPtr,
            ) && *final(self) == *old(self),
            old(self).state() != StreamState::Closed ==> {
                &&& same_except_finished(old(self).context(), final(self).context())
                &&& final(self).context().finished_callback() == Some(finished_callback)
                &&& final(self).context().has_finished_callback()
                &&& exists|code: i32| engine_install.ensures((true,), code) && r == pa_result_of(code)
            },
    {
        if let StreamState::Closed = self.state {
            return Err(PaError::PaBadStreamPtr);
        }
        let installed = Some(finished_callback);
        self.user_data.finished_callback = installed;
        to_pa_result(engine_install(true))
    }

    /// Removes any completion callback; `engine_install` tells the engine to
    /// call none (`false`).
    pub fn unset_finished_callback<E: FnOnce(bool) -> i32>(&mut self, engine_install: E) -> (r:
        PaResult)
        requires
            old(self).state() != StreamState::Closed ==> engine_install.requires((false,)),
        ensures
            final(self).state() == old(self).state(),
            final(self).inputs() == old(self).inputs(),
            final(self).outputs() == old(self).outputs(),
            final(self).wf() == old(self).wf(),
            old(self).state() == StreamState::Closed ==> r == Err::<(), PaError>(
                PaError::PaBadStreamPtr,
            ) && *final(self) == *old(self),
            old(self).state() != StreamState::Closed ==> {
                &&& same_except_finished(old(self).context(), final(self).context())
                &&& !final(self).context().has_finished_callback()
                &&& exists|code: i32| engine_install.ensures((false,), code) && r == pa_result_of(code)
            },
    {
        if let StreamState::Closed = self.state {
            return Err(PaError::PaBadStreamPtr);
        }
        self.user_data.unset_finished_callback();
        to_pa_result(engine_install(false))
    }
}

impl<'a, T> Stream<'a, T, T> {
    /// Prepares a stream on the default input and output devices, with the
    /// given channel counts and frames per buffer. The engine opens it from the request, and the
    /// request's `complete` takes the engine's answer.
    pub fn open_default(
        num_input_channels: u32,
        num_output_channels: u32,
        frames_per_buffer: u64,
        callback: Option<Box<dyn StreamCallback<T, T> + 'a>>,
    ) -> (r: DefaultOpenRequest<'a, T>) where T: SampleType
        ensures
            r.num_input_channels == num_input_channels as i32,
            r.num_output_channels == num_output_channels as i32,
            r.sample_format == tag_of(T::format()),
            r.frames_per_buffer == frames_per_buffer,
            r.uses_callback == (callback is Some),
            r.context().num_input() == num_input_channels,
            r.context().num_output() == num_output_channels,
            r.context().has_callback() == (callback is Some),
            !r.context().has_finished_callback(),
            r.context().outcome() is None,
            r.context().callback_runs() == 0,
            r.context().finished_runs() == 0,
    {
        let uses_callback = callback.is_some();
        let format = T::sample_format();
        let user_data = Box::new(StreamUserData::new(num_input_channels, num_output_channels, callback));
        DefaultOpenRequest {
            num_input_channels: num_input_channels as i32,
            num_output_channels: num_output_channels as i32,
            sample_format: format.tag(),
            frames_per_buffer,
            uses_callback,
            user_data,
        }
    }
}

/// A stop or an abort took `pre` to `post` with result `r`: a closed stream
/// gives `PaBadStreamPtr` and a stopped one `PaStreamIsStopped`, both
/// unchanged; a running one stops when the engine succeeds.
pub open spec fn halt_step<'a, I, O>(pre: Stream<'a, I, O>, post: Stream<'a, I, O>, r: PaResult) -> bool {
    &&& same_stream(pre, post)
    &&& post.context().outcome() == pre.context().outcome()
    &&& pre.state() == StreamState::Closed ==> r == Err::<(), PaError>(PaError::PaBadStreamPtr)
        && post == pre
    &&& pre.state() == StreamState::Stopped ==> r == Err::<(), PaError>(PaError::PaStreamIsStopped)
        && post == pre
    &&& pre.state() == StreamState::Running ==> post.state() == (if r is Ok {
        StreamState::Stopped
    } else {
        StreamState::Running
    })
}

/// A yes/no query of a stream in state `state` answered `r`.
pub open spec fn query_step<E: FnOnce() -> i32>(state: StreamState, engine_query: E, r: Result<bool, PaError>) -> bool {
    if state == StreamState::Closed {
        r == Err::<bool, PaError>(PaError::PaBadStreamPtr)
    } else {
        exists|code: i32| engine_query.ensures((), code) && r == flag_result_of(code)
    }
}

/// A frame count query of a stream in state `state` answered `r`.
pub open spec fn frame_query_step<E: FnOnce() -> i64>(state: StreamState, engine_query: E, r: Result<u32, PaError>) -> bool {
    if state == StreamState::Closed {
        r == Err::<u32, PaError>(PaError::PaBadStreamPtr)
    } else {
        exists|code: i64| engine_query.ensures((), code) && r == frame_count_result_of(code)
    }
}

/// A stop that succeeds on a running stream leaves it stopped, the one state
/// from which `close` reaches the engine (from a running one it answers
/// `PaStreamIsNotStopped`).
pub proof fn lemma_close_after_stop<'a, I, O>(
    running: Stream<'a, I, O>,
    stopped: Stream<'a, I, O>,
    r: PaResult,
)
    requires
        running.state() == StreamState::Running,
        halt_step(running, stopped, r),
        r is Ok,
    ensures
        stopped.state() == StreamState::Stopped,
{
}

/// Whether the engine supports the given parameters; the suggested latency
/// is ignored. `engine_check` asks the engine with the parameters in its
/// form, an absent direction as `None`.
pub fn is_format_supported<I, O, E>(
    input: Option<PaStreamParameters<I>>,
    output: Option<PaStreamParameters<O>>,
    engine_check: E,
) -> (r: PaResult) where
    I: SampleType,
    O: SampleType,
    E: FnOnce(Option<RawStreamParameters>, Option<RawStreamParameters>) -> i32,

    requires
        forall|a: Option<RawStreamParameters>, b: Option<RawStreamParameters>|
            raw_option_match(a, input) && raw_option_match(b, output) ==> #[trigger] engine_check.requires(
                (a, b),
            ),
    ensures
        exists|a: Option<RawStreamParameters>, b: Option<RawStreamParameters>, code: i32|
            raw_option_match(a, input) && raw_option_match(b, output) && #[trigger] engine_check.ensures(
                (a, b),
                code,
            ) && r == pa_result_of(code),
{
    let input_raw = match input {
        Some(sp) => Some(sp.to_raw()),
        None => None,
    };
    let output_raw = match output {
        Some(sp) => Some(sp.to_raw()),
        None => None,
    };
    to_pa_result(engine_check(input_raw, output_raw))
}

} // verus!
