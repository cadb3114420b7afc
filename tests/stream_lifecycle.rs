use std::cell::Cell;
use std::rc::Rc;
use std::time::Duration;

use rportaudio::rpa_error::PaError;
use rportaudio::stream::{
    sample_count, Stream, StreamCallback, StreamFinishedCallback, StreamState, StreamUserData,
};
use rportaudio::types::{
    PaStreamCallbackFlags, PaStreamCallbackResult, PaStreamParameters, PaStreamTimeInfo,
    StreamFlags, CLIP_OFF, DITHER_OFF,
};

fn params(channels: u32) -> PaStreamParameters<i16> {
    PaStreamParameters {
        device: 0,
        channel_count: channels,
        suggested_latency: Duration::new(0, 10_000_000),
        data: 0i16,
    }
}

fn opened(inputs: u32, outputs: u32) -> Stream<'static, i16, i16> {
    let input = if inputs > 0 { Some(params(inputs)) } else { None };
    let output = if outputs > 0 { Some(params(outputs)) } else { None };
    Stream::open(input, output, 0, StreamFlags::empty(), None).complete(0).unwrap()
}

fn time_info() -> PaStreamTimeInfo {
    PaStreamTimeInfo {
        input_adc_time: Duration::new(1, 0),
        current_time: Duration::new(1, 500),
        output_dac_time: Duration::new(1, 1000),
    }
}

struct Counting {
    runs: Rc<Cell<u32>>,
    answer: PaStreamCallbackResult,
}

impl StreamCallback<i16, i16> for Counting {
    fn process(
        &mut self,
        input: &[i16],
        output: &mut [i16],
        _time: PaStreamTimeInfo,
        _flags: PaStreamCallbackFlags,
    ) -> PaStreamCallbackResult {
        self.runs.set(self.runs.get() + 1);
        for (o, i) in output.iter_mut().zip(input.iter()) {
            *o = *i;
        }
        self.answer
    }
}

struct Done {
    runs: Rc<Cell<u32>>,
}

impl StreamFinishedCallback for Done {
    fn finished(&mut self) {
        self.runs.set(self.runs.get() + 1);
    }
}

fn invoke(
    ctx: &mut StreamUserData<'static, i16, i16>,
    input: &[i16],
    output: &mut [i16],
) -> PaStreamCallbackResult {
    if let Some(answer) = ctx.begin_frames() {
        return answer;
    }
    let answer = match ctx.callback_mut() {
        Some(f) => f.process(input, output, time_info(), PaStreamCallbackFlags::empty()),
        None => PaStreamCallbackResult::Abort,
    };
    ctx.end_frames(answer)
}

fn finish(ctx: &mut StreamUserData<'static, i16, i16>) {
    if ctx.begin_finished() {
        if let Some(f) = ctx.finished_callback_mut() {
            f.finished();
        }
    }
}

#[test]
fn open_builds_request_and_completes() {
    let req = Stream::open(Some(params(1)), Some(params(2)), 256, StreamFlags::from_bits_truncate(CLIP_OFF | DITHER_OFF), None);
    assert_eq!(req.frames_per_buffer, 256);
    assert_eq!(req.flags, CLIP_OFF | DITHER_OFF);
    assert_eq!(req.input.unwrap().channel_count, 1);
    assert_eq!(req.output.unwrap().channel_count, 2);
    assert_eq!(req.input.unwrap().sample_format, 0x08);
    assert!(!req.uses_callback);
    assert_eq!(req.user_data.input_channels(), 1);
    assert_eq!(req.user_data.output_channels(), 2);
    let s = req.complete(0).unwrap();
    assert_eq!(s.stream_state(), StreamState::Stopped);
    assert_eq!(s.num_input_channels(), 1);
    assert_eq!(s.num_output_channels(), 2);
}

#[test]
fn open_failure_carries_engine_code() {
    let req = Stream::<i16, i16>::open(None, Some(params(2)), 0, StreamFlags::empty(), None);
    assert!(matches!(req.complete(-9998), Err(PaError::PaInvalidChannelCount)));
}

#[test]
fn open_default_request() {
    let req = Stream::<i32, i32>::open_default(0, 2, 64, None);
    assert_eq!(req.frames_per_buffer, 64);
    assert_eq!(req.num_input_channels, 0);
    assert_eq!(req.num_output_channels, 2);
    assert_eq!(req.sample_format, 0x02);
    let s = req.complete(0).unwrap();
    assert_eq!(s.num_output_channels(), 2);
}

#[test]
fn write_checks_alignment_before_engine() {
    let s = opened(0, 2);
    let r = s.write(&[0i16; 5], |_, _| panic!("engine reached"));
    assert_eq!(r, Err(PaError::PaBadBufferPtr));
    let frames = Cell::new(0u64);
    let r = s.write(&[0i16; 6], |_, n| {
        frames.set(n);
        0
    });
    assert_eq!(r, Ok(()));
    assert_eq!(frames.get(), 3);
}

#[test]
fn write_without_output_channels() {
    let s = opened(1, 0);
    let r = s.write(&[0i16; 4], |_, _| panic!("engine reached"));
    assert_eq!(r, Err(PaError::PaCanNotWriteToAnInputOnlyStream));
}

#[test]
fn write_surfaces_engine_error() {
    let s = opened(0, 1);
    assert_eq!(s.write(&[1i16, 2], |_, _| -9980), Err(PaError::PaOutputUnderflowed));
}

#[test]
fn read_without_input_channels_skips_engine() {
    let s = opened(0, 2);
    let r = s.read(100, |_, _| panic!("engine reached"));
    assert_eq!(r, Err(PaError::PaCanNotReadFromAnOutputOnlyStream));
}

#[test]
fn read_returns_exact_buffer() {
    let s = opened(2, 0);
    let r = s.read(3, |mut buf: Vec<i16>, frames| {
        assert_eq!(frames, 3);
        for (k, x) in buf.iter_mut().enumerate() {
            *x = k as i16;
        }
        (buf, 0)
    });
    assert_eq!(r, Ok(vec![0, 1, 2, 3, 4, 5]));
    let r = s.read(3, |buf: Vec<i16>, _| (buf, -9981));
    assert_eq!(r, Err(PaError::PaInputOverflowed));
    let r = s.read(3, |_buf: Vec<i16>, _| (vec![1, 2], 0));
    assert_eq!(r, Err(PaError::PaInternalError));
}

#[test]
fn close_while_running_is_refused() {
    let mut s = opened(0, 2);
    assert_eq!(s.start(|| 0), Ok(()));
    assert_eq!(s.stream_state(), StreamState::Running);
    assert_eq!(s.close(|| panic!("engine reached")), Err(PaError::PaStreamIsNotStopped));
    assert_eq!(s.stream_state(), StreamState::Running);
}

#[test]
fn start_stop_close_succeeds() {
    let mut s = opened(0, 2);
    assert_eq!(s.start(|| 0), Ok(()));
    assert_eq!(s.stop(|| 0), Ok(()));
    assert_eq!(s.stream_state(), StreamState::Stopped);
    assert_eq!(s.close(|| 0), Ok(()));
    assert_eq!(s.stream_state(), StreamState::Closed);
}

#[test]
fn invalid_transitions() {
    let mut s = opened(0, 2);
    assert_eq!(s.stop(|| 0), Err(PaError::PaStreamIsStopped));
    assert_eq!(s.abort(|| 0), Err(PaError::PaStreamIsStopped));
    assert_eq!(s.start(|| 0), Ok(()));
    assert_eq!(s.start(|| 0), Err(PaError::PaStreamIsNotStopped));
    assert_eq!(s.abort(|| 0), Ok(()));
    assert_eq!(s.start(|| -9985), Err(PaError::PaDeviceUnavailable));
    assert_eq!(s.stream_state(), StreamState::Stopped);
    assert_eq!(s.close(|| 0), Ok(()));
    assert_eq!(s.start(|| 0), Err(PaError::PaBadStreamPtr));
    assert_eq!(s.close(|| 0), Err(PaError::PaBadStreamPtr));
    assert_eq!(s.write(&[0i16; 2], |_, _| 0), Err(PaError::PaBadStreamPtr));
    assert_eq!(s.is_active(|| 1), Err(PaError::PaBadStreamPtr));
}

#[test]
fn queries_decode_engine_answers() {
    let s = opened(1, 1);
    assert_eq!(s.is_stopped(|| 1), Ok(true));
    assert_eq!(s.is_active(|| 0), Ok(false));
    assert_eq!(s.is_active(|| -9988), Err(PaError::PaBadStreamPtr));
    assert_eq!(s.num_read_available(|| 256), Ok(256));
    assert_eq!(s.num_write_available(|| -9986), Err(PaError::PaInternalError));
}

#[test]
fn bridge_stops_running_callback_after_abort() {
    let runs = Rc::new(Cell::new(0));
    let cb = Counting { runs: runs.clone(), answer: PaStreamCallbackResult::Abort };
    let mut ctx: StreamUserData<'static, i16, i16> = StreamUserData::new(1, 1, Some(Box::new(cb)));
    let input = [5i16, 6];
    let mut output = [0i16; 2];
    assert_eq!(invoke(&mut ctx, &input, &mut output), PaStreamCallbackResult::Abort);
    assert_eq!(output, [5, 6]);
    for _ in 0..5 {
        assert_eq!(ctx.begin_frames(), Some(PaStreamCallbackResult::Abort));
        assert_eq!(invoke(&mut ctx, &input, &mut output), PaStreamCallbackResult::Abort);
    }
    assert_eq!(runs.get(), 1);
}

#[test]
fn bridge_passes_results_verbatim_and_rearms_on_start() {
    let runs = Rc::new(Cell::new(0));
    let cb = Counting { runs: runs.clone(), answer: PaStreamCallbackResult::Continue };
    let mut ctx: StreamUserData<'static, i16, i16> = StreamUserData::new(1, 1, Some(Box::new(cb)));
    for _ in 0..3 {
        assert_eq!(ctx.begin_frames(), None);
        assert_eq!(invoke(&mut ctx, &[1], &mut [0]), PaStreamCallbackResult::Continue);
    }
    assert_eq!(runs.get(), 3);
    assert_eq!(ctx.end_frames(PaStreamCallbackResult::Complete), PaStreamCallbackResult::Complete);
    assert_eq!(ctx.begin_frames(), Some(PaStreamCallbackResult::Complete));

    let runs = Rc::new(Cell::new(0));
    let cb = Counting { runs: runs.clone(), answer: PaStreamCallbackResult::Complete };
    let mut s: Stream<'static, i16, i16> =
        Stream::open(Some(params(1)), Some(params(1)), 0, StreamFlags::empty(), Some(Box::new(cb)))
            .complete(0)
            .unwrap();
    assert_eq!(s.start(|| 0), Ok(()));
    assert_eq!(s.stop(|| 0), Ok(()));
    assert_eq!(s.start(|| 0), Ok(()));
}

#[test]
fn bridge_without_callback_aborts() {
    let mut ctx: StreamUserData<'static, i16, i16> = StreamUserData::new(1, 1, None);
    assert_eq!(ctx.begin_frames(), Some(PaStreamCallbackResult::Abort));
    assert_eq!(ctx.begin_frames(), Some(PaStreamCallbackResult::Abort));
}

#[test]
fn finished_callback_runs_once_per_finish() {
    let runs = Rc::new(Cell::new(0));
    let mut ctx: StreamUserData<'static, i16, i16> = StreamUserData::new(0, 1, None);
    ctx.set_finished_callback(Box::new(Done { runs: runs.clone() }));
    finish(&mut ctx);
    assert_eq!(runs.get(), 1);
}

#[test]
fn unset_finished_callback_runs_nothing() {
    let runs = Rc::new(Cell::new(0));
    let mut s = opened(0, 2);
    let installed = Cell::new(false);
    let r = s.set_finished_callback(Box::new(Done { runs: runs.clone() }), |on| {
        installed.set(on);
        0
    });
    assert_eq!(r, Ok(()));
    assert!(installed.get());
    assert_eq!(s.unset_finished_callback(|on| {
        installed.set(on);
        0
    }), Ok(()));
    assert!(!installed.get());

    let mut ctx: StreamUserData<'static, i16, i16> = StreamUserData::new(0, 1, None);
    ctx.set_finished_callback(Box::new(Done { runs: runs.clone() }));
    ctx.unset_finished_callback();
    assert!(!ctx.begin_finished());
    finish(&mut ctx);
    assert_eq!(runs.get(), 0);
}

#[test]
fn buffer_lengths_follow_channel_counts() {
    let ctx: StreamUserData<'static, i16, i16> = StreamUserData::new(2, 3, None);
    assert_eq!(ctx.buffer_lengths(4), Some((8, 12)));
    assert_eq!(sample_count(10, 0), Some(0));
    assert_eq!(sample_count(u64::MAX, 2), None);
    assert_eq!(sample_count(7, 3), Some(21));
}
