//! Bindings to the native audio engine. Each context the managed runtime sees
//! wraps an engine context; the engine does all rendering and owns the state
//! machine, and this module confines the calls into it to a few trusted
//! wrappers, keeps the plain values the binding itself answers for (frame
//! count, channel count, sample rate), and marshals states and errors into
//! the library's own types.

use vstd::prelude::*;

use crate::marshal::{ContextState, LatencyCategory};
use web_audio_api::context::BaseAudioContext;

verus! {

#[verifier::external_type_specification]
#[verifier::external_body]
pub struct ExOfflineAudioContext(web_audio_api::context::OfflineAudioContext);

#[verifier::external_type_specification]
#[verifier::external_body]
pub struct ExAudioContext(web_audio_api::context::AudioContext);

/// An error reported by the engine, carried as its message text.
#[derive(Debug)]
pub struct EngineError {
    pub message: String,
}

/// Turns an engine result whose error is already message text into one that
/// carries the library's error type, leaving a success untouched.
pub fn to_engine_result<V>(r: Result<V, String>) -> (out: Result<V, EngineError>)
    ensures
        r matches Ok(v) ==> out matches Ok(w) && w == v,
        r matches Err(m) ==> out matches Err(e) && e.message == m,
{
    match r {
        Ok(v) => Ok(v),
        Err(m) => Err(EngineError { message: m }),
    }
}

/// Relies on web_audio_api::context::OfflineAudioContext::new: constructs an
/// offline context that renders `frames` sample frames over `channels`
/// channels at `sample_rate_hz`. The engine asserts 1..=32 channels, a
/// nonzero length and a rate within [3000, 768000]; the preconditions keep
/// every call outside those assertions.
#[verifier::external_body]
fn new_offline_context(
    channels: usize,
    frames: usize,
    sample_rate_hz: u32,
) -> web_audio_api::context::OfflineAudioContext
    requires
        1 <= channels <= 32,
        1 <= frames,
        3000 <= sample_rate_hz <= 768000,
{
    web_audio_api::context::OfflineAudioContext::new(channels, frames, sample_rate_hz as _)
}

/// Relies on web_audio_api::context::AudioContext::try_new: constructs a
/// realtime context, or reports why it could not. The engine validates the
/// options before it reaches any device: a sample rate outside [3000, 768000]
/// or a malformed sink identifier is answered with an error, never a panic.
#[verifier::external_body]
fn try_new_realtime(
    latency: LatencyCategory,
    sample_rate_hz: Option<u32>,
    sink_id: String,
) -> (r: Result<web_audio_api::context::AudioContext, String>)
    ensures
        (sample_rate_hz matches Some(rate) && !(3000 <= rate && rate <= 768000)) ==> r is Err,
{
    let latency_hint = match latency {
        LatencyCategory::Interactive => {
            web_audio_api::context::AudioContextLatencyCategory::Interactive
        },
        LatencyCategory::Balanced => web_audio_api::context::AudioContextLatencyCategory::Balanced,
        LatencyCategory::Playback => web_audio_api::context::AudioContextLatencyCategory::Playback,
    };
    let options = web_audio_api::context::AudioContextOptions {
        latency_hint,
        sample_rate: sample_rate_hz.map(|rate| rate as _),
        sink_id,
        ..Default::default()
    };
    web_audio_api::context::AudioContext::try_new(options).map_err(|e| e.to_string())
}

/// Relies on BaseAudioContext::state for the offline context: reports the
/// engine's current lifecycle state. The engine owns the transitions, so
/// nothing is promised of which state comes back.
#[verifier::external_body]
fn offline_state(ctx: &web_audio_api::context::OfflineAudioContext) -> ContextState {
    match ctx.state() {
        web_audio_api::context::AudioContextState::Suspended => ContextState::Suspended,
        web_audio_api::context::AudioContextState::Running => ContextState::Running,
        web_audio_api::context::AudioContextState::Closed => ContextState::Closed,
    }
}

/// Relies on BaseAudioContext::state for the realtime context: reports the
/// engine's current lifecycle state. The engine owns the transitions, so
/// nothing is promised of which state comes back.
#[verifier::external_body]
fn realtime_state(ctx: &web_audio_api::context::AudioContext) -> ContextState {
    match ctx.state() {
        web_audio_api::context::AudioContextState::Suspended => ContextState::Suspended,
        web_audio_api::context::AudioContextState::Running => ContextState::Running,
        web_audio_api::context::AudioContextState::Closed => ContextState::Closed,
    }
}

/// Relies on web_audio_api::context::AudioContext::sink_id: the identifier of
/// the current output device, `""` for the default device. It changes with
/// the device, so nothing is promised of the value.
#[verifier::external_body]
fn realtime_sink_id(ctx: &web_audio_api::context::AudioContext) -> String {
    ctx.sink_id()
}

/// Relies on web_audio_api::context::AudioContext::set_sink_id_sync: moves
/// the output to the named device, reporting an unknown identifier or a
/// backend failure as an error.
#[verifier::external_body]
fn realtime_set_sink_id(
    ctx: &web_audio_api::context::AudioContext,
    sink_id: String,
) -> Result<(), String> {
    ctx.set_sink_id_sync(sink_id).map_err(|e| e.to_string())
}

/// An offline rendering context: the engine renders into a buffer of a fixed
/// frame count, channel count and sample rate, all chosen at construction.
/// The binding keeps those three values itself; the engine reports the same
/// ones, since it only stores the constructor's arguments.
pub struct OfflineContext {
    inner: web_audio_api::context::OfflineAudioContext,
    channels: usize,
    frames: usize,
    rate_hz: u32,
}

impl OfflineContext {
    /// The number of output channels the context renders.
    pub closed spec fn channel_count(&self) -> usize {
        self.channels
    }

    /// The number of sample frames the context renders.
    pub closed spec fn frame_count(&self) -> usize {
        self.frames
    }

    /// The sample rate the context renders at, in hertz.
    pub closed spec fn sample_rate(&self) -> u32 {
        self.rate_hz
    }

    /// Constructs an offline context. The bounds are the engine's own: it
    /// panics outside them, so they are required here instead.
    pub fn new(channels: usize, frames: usize, sample_rate_hz: u32) -> (r: Self)
        requires
            1 <= channels <= 32,
            1 <= frames,
            3000 <= sample_rate_hz <= 768000,
        ensures
            r.channel_count() == channels,
            r.frame_count() == frames,
            r.sample_rate() == sample_rate_hz,
    {
        let inner = new_offline_context(channels, frames, sample_rate_hz);
        OfflineContext { inner, channels, frames, rate_hz: sample_rate_hz }
    }

    /// The length of the rendering, in sample frames.
    pub fn length(&self) -> (n: usize)
        ensures
            n == self.frame_count(),
    {
        self.frames
    }

    /// The number of output channels.
    pub fn number_of_channels(&self) -> (n: usize)
        ensures
            n == self.channel_count(),
    {
        self.channels
    }

    /// The sample rate, in hertz.
    pub fn sample_rate_hz(&self) -> (n: u32)
        ensures
            n == self.sample_rate(),
    {
        self.rate_hz
    }

    /// The engine's current lifecycle state for this context.
    pub fn state(&self) -> ContextState {
        offline_state(&self.inner)
    }

    /// The engine's current lifecycle state, under the name a managed caller
    /// sees. Whatever the engine answers, the result is one of the three
    /// state names.
    pub fn state_name(&self) -> (r: &'static str)
        ensures
            r@ == "suspended"@ || r@ == "running"@ || r@ == "closed"@,
    {
        crate::marshal::state_label(self.state())
    }

    /// The engine context itself, for the operations only the engine can run
    /// from the boundary: rendering, the awaited control calls, and decoding.
    /// Decoding stays at the boundary because the engine can panic on a
    /// crafted byte stream (a declared sample rate of zero overflows its
    /// resampler), so no trusted contract here could promise it returns;
    /// the boundary maps its error through `to_engine_result`.
    pub fn native(&self) -> &web_audio_api::context::OfflineAudioContext {
        &self.inner
    }
}

/// A realtime context: the engine plays the graph on an output device. The
/// binding holds the engine context and marshals its options, states and
/// errors; latency, timing and device choice stay the engine's.
pub struct RealtimeContext {
    inner: web_audio_api::context::AudioContext,
}

impl RealtimeContext {
    /// Constructs a realtime context from plain option values: a latency
    /// category, an optional sample rate in hertz, and a sink identifier
    /// (`""` for the default device, `"none"` for no device). A sample rate
    /// outside [3000, 768000] is answered with an error, as the engine
    /// validates the options before it reaches any device.
    pub fn create(
        latency: LatencyCategory,
        sample_rate_hz: Option<u32>,
        sink_id: String,
    ) -> (r: Result<Self, EngineError>)
        ensures
            (sample_rate_hz matches Some(rate) && !(3000 <= rate && rate <= 768000)) ==> r is Err,
    {
        match try_new_realtime(latency, sample_rate_hz, sink_id) {
            Ok(ctx) => Ok(RealtimeContext { inner: ctx }),
            Err(m) => Err(EngineError { message: m }),
        }
    }

    /// Wraps an engine context the boundary code built itself. This is for
    /// options the library cannot carry — a custom latency hint is a float —
    /// where the boundary constructs the engine context and hands it in.
    pub fn from_native(inner: web_audio_api::context::AudioContext) -> Self {
        RealtimeContext { inner }
    }

    /// The engine's current lifecycle state for this context.
    pub fn state(&self) -> ContextState {
        realtime_state(&self.inner)
    }

    /// The engine's current lifecycle state, under the name a managed caller
    /// sees. Whatever the engine answers, the result is one of the three
    /// state names.
    pub fn state_name(&self) -> (r: &'static str)
        ensures
            r@ == "suspended"@ || r@ == "running"@ || r@ == "closed"@,
    {
        crate::marshal::state_label(self.state())
    }

    /// The identifier of the current output device, `""` for the default.
    pub fn sink_id(&self) -> String {
        realtime_sink_id(&self.inner)
    }

    /// Moves the output to the named device; an unknown identifier or a
    /// backend failure comes back as the library's error.
    pub fn set_sink_id(&self, sink_id: String) -> Result<(), EngineError> {
        to_engine_result(realtime_set_sink_id(&self.inner, sink_id))
    }

    /// The engine context itself, for the operations only the engine can run
    /// from the boundary: the awaited control calls, event registration, and
    /// decoding. Decoding stays at the boundary because the engine can panic
    /// on a crafted byte stream (a declared sample rate of zero overflows its
    /// resampler), so no trusted contract here could promise it returns;
    /// the boundary maps its error through `to_engine_result`.
    pub fn native(&self) -> &web_audio_api::context::AudioContext {
        &self.inner
    }
}

} // verus!
