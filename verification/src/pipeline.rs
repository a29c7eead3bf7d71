//! The life of a capture pipeline: what it is built from, when a start has
//! succeeded or failed, when it is tried again, and what its messages mean.
use vstd::hash_map::StringHashMap;
use vstd::prelude::*;

use crate::config::EncoderInfo;
use crate::encoders::{configure, spec_for, EncoderSpec, EncoderTuning, Setting, Value};
use crate::error::CaptureError;
use crate::text::{decimal, join2, join3, list_contains, same};

verus! {

/// An element of a pipeline and the properties it gets, in order.
#[derive(Debug)]
pub struct ElementPlan {
    pub element: String,
    pub settings: Vec<Setting>,
}

/// What an [`ElementPlan`] says.
#[verifier::ext_equal]
pub struct ElementView {
    pub element: Seq<char>,
    pub settings: Seq<Setting>,
}

impl View for ElementPlan {
    type V = ElementView;

    open spec fn view(&self) -> ElementView {
        ElementView { element: self.element@, settings: self.settings@ }
    }
}

/// What a chain of elements says.
pub open spec fn chain_views(chain: Seq<ElementPlan>) -> Seq<ElementView> {
    chain.map_values(|e: ElementPlan| e@)
}

/// A few frames of slack between capture and encode: the oldest frame goes
/// when the encoder stalls longer than that instead of the source waiting.
pub open spec fn slack_queue() -> ElementView {
    ElementView {
        element: "queue"@,
        settings: seq![
            crate::encoders::number("max-size-buffers", 4),
            crate::encoders::number("max-size-bytes", 0),
            crate::encoders::number("max-size-time", 0),
            crate::encoders::nick("leaky", "downstream"),
        ],
    }
}

/// Takes every frame as an access unit of an H.264 byte stream as soon as it
/// is there; a full sink makes the encoder wait and loses nothing.
pub open spec fn frame_sink() -> ElementView {
    ElementView {
        element: "appsink"@,
        settings: seq![
            Setting {
                name: "caps",
                value: Value::Caps(
                    "video/x-h264, stream-format=byte-stream, alignment=au, profile=high",
                ),
            },
            Setting { name: "sync", value: Value::Switch(false) },
            crate::encoders::number("max-buffers", 8),
            Setting { name: "drop", value: Value::Switch(false) },
        ],
    }
}

/// The tail of a capture pipeline behind the video head.
pub open spec fn encoder_tail(spec: EncoderSpec, tuning: EncoderTuning, queue: bool) -> Seq<
    ElementView,
> {
    (if queue {
        seq![slack_queue()]
    } else {
        Seq::empty()
    }) + seq![
        ElementView {
            element: spec.element@,
            settings: crate::encoders::profile_of(spec.kind, spec.element@, tuning),
        },
        ElementView {
            element: "h264parse"@,
            settings: seq![crate::encoders::number("config-interval", -1)],
        },
        frame_sink(),
    ]
}

/// The chain of a capture pipeline: the video head, a queue with a little
/// slack unless it is switched off, the encoder, the parser that repeats the
/// parameter sets on every keyframe, and the sink for whole H.264 frames. An encoder that is not
/// among the candidates is a missing component.
pub fn build_chain(
    head: Vec<ElementPlan>,
    candidates: &Vec<EncoderSpec>,
    encoder: &EncoderInfo,
    tuning: EncoderTuning,
    queue: bool,
) -> (r: Result<Vec<ElementPlan>, CaptureError>)
    ensures
        match crate::encoders::spec_of(candidates@, encoder.element@) {
            Some(spec) => r matches Ok(chain) && chain_views(chain@) == chain_views(head@)
                + encoder_tail(spec, tuning, queue),
            None => r == Err::<Vec<ElementPlan>, CaptureError>(
                CaptureError::MissingElement(encoder.element),
            ),
        },
{
    let spec = match spec_for(candidates, encoder.element.as_str()) {
        Some(spec) => spec,
        None => return Err(CaptureError::MissingElement(encoder.element.clone())),
    };
    let ghost front = chain_views(head@);
    let mut chain = head;
    if queue {
        let mut settings: Vec<Setting> = Vec::new();
        settings.push(Setting { name: "max-size-buffers", value: Value::Number(4) });
        settings.push(Setting { name: "max-size-bytes", value: Value::Number(0) });
        settings.push(Setting { name: "max-size-time", value: Value::Number(0) });
        settings.push(Setting { name: "leaky", value: Value::Nick("downstream") });
        let element = ElementPlan { element: "queue".to_owned(), settings };
        assert(element@ =~= slack_queue());
        chain.push(element);
    }
    let ghost with_queue = chain_views(chain@);
    assert(with_queue =~= front + (if queue {
        seq![slack_queue()]
    } else {
        Seq::empty()
    }));
    chain.push(
        ElementPlan { element: spec.element.to_owned(), settings: configure(spec, tuning) },
    );
    let mut parse: Vec<Setting> = Vec::new();
    parse.push(Setting { name: "config-interval", value: Value::Number(-1) });
    assert(parse@ =~= seq![crate::encoders::number("config-interval", -1)]);
    chain.push(ElementPlan { element: "h264parse".to_owned(), settings: parse });
    let mut take: Vec<Setting> = Vec::new();
    take.push(
        Setting {
            name: "caps",
            value: Value::Caps(
                "video/x-h264, stream-format=byte-stream, alignment=au, profile=high",
            ),
        },
    );
    take.push(Setting { name: "sync", value: Value::Switch(false) });
    take.push(Setting { name: "max-buffers", value: Value::Number(8) });
    take.push(Setting { name: "drop", value: Value::Switch(false) });
    let sink = ElementPlan { element: "appsink".to_owned(), settings: take };
    assert(sink@ =~= frame_sink());
    chain.push(sink);
    assert(chain_views(chain@) =~= front + encoder_tail(spec, tuning, queue));
    Ok(chain)
}

/// The elements that every capture needs.
pub open spec fn shared_elements() -> Seq<Seq<char>> {
    seq![
        "videorate"@,
        "h264parse"@,
        "mp4mux"@,
        "appsink"@,
        "appsrc"@,
        "audiomixer"@,
        "aacparse"@,
    ]
}

/// The first element of the list that is not registered.
pub open spec fn first_missing(needed: Seq<Seq<char>>, registered: Seq<Seq<char>>) -> Option<
    Seq<char>,
>
    decreases needed.len(),
{
    if needed.len() == 0 {
        None
    } else if !registered.contains(needed[0]) {
        Some(needed[0])
    } else {
        first_missing(needed.drop_first(), registered)
    }
}

fn find_missing(needed: &Vec<String>, registered: &Vec<String>) -> (r: Option<String>)
    ensures
        crate::engine::model::text_view(r) == first_missing(
            crate::text::views(needed@),
            crate::text::views(registered@),
        ),
{
    let ghost all = crate::text::views(needed@);
    let ghost names = crate::text::views(registered@);
    let mut i: usize = 0;
    assert(all.skip(0) =~= all);
    while i < needed.len()
        invariant
            i <= needed.len(),
            all == crate::text::views(needed@),
            names == crate::text::views(registered@),
            first_missing(all, names) == first_missing(all.skip(i as int), names),
        decreases needed.len() - i,
    {
        assert(all.skip(i as int).drop_first() =~= all.skip(i + 1));
        if !list_contains(registered, needed[i].as_str()) {
            return Some(needed[i].clone());
        }
        i = i + 1;
    }
    None
}

/// Whether a backend can work with what is registered: `required` are the
/// elements that the platform needs besides the shared ones, `aac` says
/// whether there is an audio encoder, `encoders` are the video encoders found.
pub fn check_framework(
    required: Vec<String>,
    registered: &Vec<String>,
    aac: bool,
    encoders: &Vec<EncoderInfo>,
) -> (r: Result<(), CaptureError>)
    ensures
        ({
            let missing = first_missing(
                crate::text::views(required@) + shared_elements(),
                crate::text::views(registered@),
            );
            match r {
                Ok(()) => missing is None && aac && encoders.len() > 0,
                Err(CaptureError::MissingElement(name)) => missing == Some(name@),
                Err(CaptureError::NoAudioEncoder) => missing is None && !aac,
                Err(CaptureError::NoEncoder) => missing is None && aac && encoders.len() == 0,
                Err(_) => false,
            }
        }),
{
    let ghost first = crate::text::views(required@);
    let mut needed = required;
    needed.push("videorate".to_owned());
    needed.push("h264parse".to_owned());
    needed.push("mp4mux".to_owned());
    needed.push("appsink".to_owned());
    needed.push("appsrc".to_owned());
    needed.push("audiomixer".to_owned());
    needed.push("aacparse".to_owned());
    assert(crate::text::views(needed@) =~= first + shared_elements());
    if let Some(name) = find_missing(&needed, registered) {
        return Err(CaptureError::MissingElement(name));
    }
    if !aac {
        return Err(CaptureError::NoAudioEncoder);
    }
    if encoders.len() == 0 {
        return Err(CaptureError::NoEncoder);
    }
    Ok(())
}

/// How often a start is tried: three times with a hardware encoder, which
/// refuses a session now and then, and where the screen source can lose its
/// first negotiation.
pub fn start_attempts(hardware: bool, retry_software: bool) -> (r: u32)
    ensures
        r == if hardware || retry_software {
            3u32
        } else {
            1u32
        },
{
    if hardware || retry_software {
        3
    } else {
        1
    }
}

/// What to do next about a start.
#[derive(Debug)]
pub enum StartStep {
    /// Try once more.
    Attempt,
    /// Wait a little, then ask again.
    Retry,
    /// The start is over.
    Done(Result<(), CaptureError>),
}

/// A start that may be tried more than once.
#[derive(Debug)]
pub struct StartLoop {
    /// The number of the attempt that comes next, from one upwards.
    pub attempt: u32,
    pub attempts: u32,
}

impl StartLoop {
    /// An attempt is left.
    pub open spec fn wf(self) -> bool {
        1 <= self.attempt <= self.attempts <= 3
    }

    /// A start with a hardware encoder, or where software starts are tried
    /// again too, has three attempts.
    pub fn new(hardware: bool, retry_software: bool) -> (r: Self)
        ensures
            r.wf(),
            r.attempt == 1,
            r.attempts == (if hardware || retry_software {
                3int
            } else {
                1
            }),
    {
        StartLoop { attempt: 1, attempts: start_attempts(hardware, retry_software) }
    }

    /// What to do before an attempt: a cancelled start is over.
    pub fn before_attempt(&self, cancelled: bool) -> (r: StartStep)
        ensures
            r == if cancelled {
                StartStep::Done(Err(CaptureError::Cancelled))
            } else {
                StartStep::Attempt
            },
    {
        if cancelled {
            StartStep::Done(Err(CaptureError::Cancelled))
        } else {
            StartStep::Attempt
        }
    }

    /// What to do after an attempt. A start that fails inside the encoder is
    /// tried again while attempts are left; any other outcome ends it.
    pub fn after_attempt(&mut self, result: Result<(), CaptureError>) -> (r: StartStep)
        requires
            old(self).wf(),
        ensures
            final(self).wf(),
            final(self).attempts == old(self).attempts,
            ({
                let again = result is Err && result->Err_0 is EncoderStart && old(self).attempt
                    < old(self).attempts;
                &&& r == if again {
                    StartStep::Retry
                } else {
                    StartStep::Done(result)
                }
                &&& final(self).attempt == if again {
                    old(self).attempt + 1
                } else {
                    old(self).attempt as int
                }
            }),
    {
        let again = match &result {
            Err(CaptureError::EncoderStart { .. }) => self.attempt < self.attempts,
            _ => false,
        };
        if again {
            self.attempt = self.attempt + 1;
            StartStep::Retry
        } else {
            StartStep::Done(result)
        }
    }
}

/// Turns a bus error into the matching error value. Errors raised by an
/// audio source element are attributed to that source; `names` maps source
/// element names to source keys.
pub fn classify_error(element: String, message: String, names: &StringHashMap<String>) -> (r:
    CaptureError)
    ensures
        r == (if names@.contains_key(element@) {
            CaptureError::AudioSource { key: names@[element@], message }
        } else {
            CaptureError::Pipeline { message, element }
        }),
{
    match names.get(element.as_str()) {
        Some(key) => CaptureError::AudioSource { key: key.clone(), message },
        None => CaptureError::Pipeline { message, element },
    }
}

/// A message of the pipeline.
#[derive(Debug)]
pub enum BusMessage {
    /// Nothing came in time.
    Nothing,
    /// An element failed.
    Error { element: String, message: String },
    /// The stream has ended.
    Eos,
    /// Something that is only worth a line in the log.
    Other,
}

/// What waiting for the first frame finds before it looks at the messages:
/// `Ok` when the frame is there, an error when the start was cancelled, `None`
/// to go on waiting.
pub fn before_first_frame(first_frame: bool, cancelled: bool) -> (r: Option<
    Result<(), CaptureError>,
>)
    ensures
        first_frame ==> r matches Some(Ok(_)),
        !first_frame && cancelled ==> r == Some(Err::<(), CaptureError>(CaptureError::Cancelled)),
        !first_frame && !cancelled ==> r is None,
{
    if first_frame {
        Some(Ok(()))
    } else if cancelled {
        Some(Err(CaptureError::Cancelled))
    } else {
        None
    }
}

/// What a failure of the pipeline that is nobody's in particular says.
pub open spec fn is_pipeline_failure(r: CaptureError, message: Seq<char>) -> bool {
    r matches CaptureError::Pipeline { message: m, element } && m@ == message && element@
        == Seq::<char>::empty()
}

fn pipeline_failure(message: String) -> (r: CaptureError)
    ensures
        is_pipeline_failure(r, message@),
{
    CaptureError::Pipeline { message, element: String::new() }
}

/// What a message means while the first frame is awaited, `None` to go on
/// waiting. The first encoded frame is the proof that the source, the GPU
/// path and the encoder all agreed; until it arrives, an error means the
/// pipeline is unusable as configured. The end of the stream means the source
/// gave up during startup, and so does a frame that does not come in time.
pub fn wait_for_first_frame(
    message: BusMessage,
    names: &StringHashMap<String>,
    past_deadline: bool,
    timeout_seconds: u64,
) -> (r: Option<CaptureError>)
    ensures
        match message {
            BusMessage::Error { element, message } => r == Some(
                if names@.contains_key(element@) {
                    CaptureError::AudioSource { key: names@[element@], message }
                } else {
                    CaptureError::Pipeline { message, element }
                },
            ),
            BusMessage::Eos => r is Some && is_pipeline_failure(
                r->0,
                "the capture source stopped before the first frame"@,
            ),
            _ => if past_deadline {
                r is Some && is_pipeline_failure(
                    r->0,
                    "no frame was produced within "@ + crate::text::dec(timeout_seconds as nat)
                        + " seconds"@,
                )
            } else {
                r is None
            },
        },
{
    match message {
        BusMessage::Error { element, message } => return Some(
            classify_error(element, message, names),
        ),
        BusMessage::Eos => return Some(
            pipeline_failure("the capture source stopped before the first frame".to_owned()),
        ),
        _ => {},
    }
    if past_deadline {
        Some(
            pipeline_failure(
                join3(
                    "no frame was produced within ",
                    decimal(timeout_seconds).as_str(),
                    " seconds",
                ),
            ),
        )
    } else {
        None
    }
}

/// The error of a start whose first frame did not come: what the pipeline
/// says is blamed on the encoder, so that another one can be tried.
pub fn start_error(encoder: &EncoderInfo, error: CaptureError) -> (r: CaptureError)
    ensures
        r == match error {
            CaptureError::Pipeline { message, .. } => CaptureError::EncoderStart {
                encoder: encoder.element,
                reason: message,
            },
            other => other,
        },
{
    match error {
        CaptureError::Pipeline { message, .. } => CaptureError::EncoderStart {
            encoder: encoder.element.clone(),
            reason: message,
        },
        other => other,
    }
}

/// The error of a pipeline that refuses to play.
pub fn refused_error(encoder: &EncoderInfo, reason: &str) -> (r: CaptureError)
    ensures
        r matches CaptureError::EncoderStart { encoder: e, reason: text } && e == encoder.element
            && text@ == "could not start capture: "@ + reason@,
{
    CaptureError::EncoderStart {
        encoder: encoder.element.clone(),
        reason: join2("could not start capture: ", reason),
    }
}

/// What a message of a running capture means: an error that ends it, or
/// nothing.
pub fn watch_message(message: BusMessage, names: &StringHashMap<String>) -> (r: Option<
    CaptureError,
>)
    ensures
        match message {
            BusMessage::Error { element, message } => r == Some(
                if names@.contains_key(element@) {
                    CaptureError::AudioSource { key: names@[element@], message }
                } else {
                    CaptureError::Pipeline { message, element }
                },
            ),
            BusMessage::Eos => r is Some && is_pipeline_failure(
                r->0,
                "the capture source stopped"@,
            ),
            _ => r is None,
        },
{
    match message {
        BusMessage::Error { element, message } => Some(classify_error(element, message, names)),
        BusMessage::Eos => Some(pipeline_failure("the capture source stopped".to_owned())),
        _ => None,
    }
}

/// What the caps of a sample say, as far as they say it.
#[derive(Debug, Clone, Copy)]
pub struct CapsFields {
    pub width: Option<i32>,
    pub height: Option<i32>,
    pub framerate: Option<(i32, i32)>,
}

/// The stream that an encoder produces.
#[derive(Debug, Clone, Copy, PartialEq, Eq, Structural)]
pub struct VideoStream {
    pub width: u32,
    pub height: u32,
    pub fps_num: u32,
    pub fps_den: u32,
}

/// `n`, or `low` when it is smaller or missing.
pub open spec fn floored(n: Option<i32>, low: int) -> int {
    match n {
        Some(v) => if v < low {
            low
        } else {
            v as int
        },
        None => low,
    }
}

fn at_least(n: Option<i32>, low: i32) -> (r: u32)
    requires
        low >= 0,
    ensures
        r == floored(n, low as int),
{
    match n {
        Some(v) => {
            if v < low {
                low as u32
            } else {
                v as u32
            }
        },
        None => low as u32,
    }
}

/// The stream that caps describe. Nothing is negative, and a missing frame
/// rate is none at all.
pub open spec fn stream_of(fields: CapsFields) -> VideoStream {
    VideoStream {
        width: floored(fields.width, 0) as u32,
        height: floored(fields.height, 0) as u32,
        fps_num: match fields.framerate {
            Some((n, _)) => floored(Some(n), 0) as u32,
            None => 0,
        },
        fps_den: match fields.framerate {
            Some((_, d)) => floored(Some(d), 1) as u32,
            None => 1,
        },
    }
}

/// Notices when the stream that an encoder produces changes. The same caps
/// arrive with every frame, and comparing them is cheaper than reading them.
#[derive(Debug)]
pub struct StreamTracker {
    pub caps: Option<String>,
    pub current: Option<VideoStream>,
}

impl StreamTracker {
    /// What the caps of a frame do to a tracker, and the stream that is
    /// announced.
    pub open spec fn is_update(
        a: StreamTracker,
        caps: Seq<char>,
        fields: Option<CapsFields>,
        b: StreamTracker,
        announced: Option<VideoStream>,
    ) -> bool {
        let known = a.caps matches Some(c) && c@ == caps;
        &&& announced == match fields {
            Some(f) if !known => Some(stream_of(f)),
            _ => None,
        }
        &&& b.caps is Some && b.caps->0@ == caps
        &&& b.current == if announced is Some {
            announced
        } else {
            a.current
        }
    }

    /// A tracker that has seen nothing.
    pub fn new() -> (r: Self)
        ensures
            r.caps is None,
            r.current is None,
    {
        StreamTracker { caps: None, current: None }
    }

    /// Takes the caps of a frame. Every caps change goes to the sink, also
    /// when size and rate stayed the same: the encoded parameters changed in
    /// some other way (aspect, colour), and the ring and the recorder must
    /// not join frames across it. Returns the stream to announce.
    pub fn update(&mut self, caps: &str, fields: Option<CapsFields>) -> (r: Option<VideoStream>)
        ensures
            StreamTracker::is_update(*old(self), caps@, fields, *final(self), r),
    {
        if let Some(known) = &self.caps {
            if same(known.as_str(), caps) {
                return None;
            }
        }
        self.caps = Some(caps.to_owned());
        let f = match fields {
            Some(f) => f,
            None => return None,
        };
        let stream = VideoStream {
            width: at_least(f.width, 0),
            height: at_least(f.height, 0),
            fps_num: match f.framerate {
                Some((n, _)) => at_least(Some(n), 0),
                None => 0,
            },
            fps_den: match f.framerate {
                Some((_, d)) => at_least(Some(d), 1),
                None => 1,
            },
        };
        self.current = Some(stream);
        Some(stream)
    }
}

/// A diagnostic switch: `1` turns it on, `0` off, anything else keeps the
/// default. `value` is the environment variable.
pub fn env_flag(value: Option<&str>, default: bool) -> (r: bool)
    ensures
        r == match value {
            Some(v) => if v@ == "1"@ {
                true
            } else if v@ == "0"@ {
                false
            } else {
                default
            },
            None => default,
        },
{
    match value {
        Some(v) => {
            if same(v, "1") {
                true
            } else if same(v, "0") {
                false
            } else {
                default
            }
        },
        None => default,
    }
}

/// The running time of a time stamp, the time stamp itself where it has none.
pub open spec fn running_at(pts: Option<u64>, running: Option<u64>) -> u64 {
    match running {
        Some(t) => t,
        None => match pts {
            Some(t) => t,
            None => 0,
        },
    }
}

/// The time of a sample in nanoseconds: the running time that accounts for
/// the segment of its pad, the raw timestamp when there is no segment.
pub fn running_time(pts: Option<u64>, running: Option<u64>) -> (r: u64)
    ensures
        r == running_at(pts, running),
{
    match running {
        Some(t) => t,
        None => match pts {
            Some(t) => t,
            None => 0,
        },
    }
}

/// What an encoded buffer says of itself, with the running times of its time
/// stamps, all in nanoseconds.
#[derive(Debug, Clone, Copy, PartialEq, Eq, Structural)]
pub struct BufferFields {
    pub pts: Option<u64>,
    pub pts_running: Option<u64>,
    pub dts: Option<u64>,
    pub dts_running: Option<u64>,
    pub duration: Option<u64>,
    /// The buffer needs the ones before it to be decoded.
    pub delta_unit: bool,
}

/// What an encoded frame is handed on with.
#[derive(Debug, Clone, Copy, PartialEq, Eq, Structural)]
pub struct FrameTimes {
    pub pts: u64,
    pub dts: Option<u64>,
    pub duration: Option<u64>,
    pub keyframe: bool,
}

/// What an encoded frame is handed on with.
pub open spec fn frame_of(buffer: BufferFields) -> FrameTimes {
    FrameTimes {
        pts: running_at(buffer.pts, buffer.pts_running),
        dts: match buffer.dts {
            Some(t) => Some(running_at(Some(t), buffer.dts_running)),
            None => None,
        },
        duration: buffer.duration,
        keyframe: !buffer.delta_unit,
    }
}

/// The caps of a sample, as a text and as far as they can be read.
#[derive(Debug)]
pub struct SampleCaps {
    pub text: String,
    pub fields: Option<CapsFields>,
}

/// What follows from a sample: a stream to announce first, then a frame to
/// hand on.
#[derive(Debug, Clone, Copy, PartialEq, Eq, Structural)]
pub struct SampleStep {
    pub stream: Option<VideoStream>,
    pub frame: Option<FrameTimes>,
}

/// Takes the samples that come out of a capture pipeline.
#[derive(Debug)]
pub struct SampleHandler {
    pub tracker: StreamTracker,
    /// A frame was handed on: the start has succeeded.
    pub first_frame: bool,
}

impl SampleHandler {
    /// A handler of a pipeline that is about to start.
    pub fn new() -> (r: Self)
        ensures
            r.tracker.caps is None && r.tracker.current is None,
            !r.first_frame,
    {
        SampleHandler { tracker: StreamTracker::new(), first_frame: false }
    }

    /// Takes a sample. A sample without a buffer hands no frame on.
    pub fn on_sample(&mut self, caps: Option<SampleCaps>, buffer: Option<BufferFields>) -> (r:
        SampleStep)
        ensures
            match caps {
                Some(caps) => StreamTracker::is_update(
                    old(self).tracker,
                    caps.text@,
                    caps.fields,
                    final(self).tracker,
                    r.stream,
                ),
                None => r.stream is None && final(self).tracker == old(self).tracker,
            },
            r.frame == match buffer {
                Some(buffer) => Some(frame_of(buffer)),
                None => None,
            },
            final(self).first_frame == (old(self).first_frame || buffer is Some),
    {
        let stream = match caps {
            Some(caps) => self.tracker.update(caps.text.as_str(), caps.fields),
            None => None,
        };
        let frame = match buffer {
            Some(b) => {
                self.first_frame = true;
                Some(
                    FrameTimes {
                        pts: running_time(b.pts, b.pts_running),
                        dts: match b.dts {
                            Some(t) => Some(running_time(Some(t), b.dts_running)),
                            None => None,
                        },
                        duration: b.duration,
                        keyframe: !b.delta_unit,
                    },
                )
            },
            None => None,
        };
        SampleStep { stream, frame }
    }
}

/// A stream is announced before its first frame, and again whenever the caps
/// change, but not for every frame that comes with the same caps.
pub proof fn a_stream_is_announced_once(
    a: StreamTracker,
    caps: Seq<char>,
    fields: CapsFields,
    b: StreamTracker,
    first: Option<VideoStream>,
    c: StreamTracker,
    second: Option<VideoStream>,
)
    requires
        !(a.caps matches Some(known) && known@ == caps),
        StreamTracker::is_update(a, caps, Some(fields), b, first),
        StreamTracker::is_update(b, caps, Some(fields), c, second),
    ensures
        first == Some(stream_of(fields)),
        second is None,
        c.current == first,
{
}

/// The backend's side of a capture: running, or being started by a thread.
#[derive(Debug, Clone, Copy, PartialEq, Eq, Structural)]
pub struct BackendState {
    pub running: bool,
    pub starting: bool,
}

impl BackendState {
    /// Whether a capture may be started.
    pub fn may_start(&self) -> (r: Result<(), CaptureError>)
        ensures
            match r {
                Ok(()) => !self.running && !self.starting,
                Err(e) => (self.running || self.starting) && e == CaptureError::AlreadyRunning,
            },
    {
        if self.running || self.starting {
            Err(CaptureError::AlreadyRunning)
        } else {
            Ok(())
        }
    }

    /// Takes the outcome of a start. A capture that came up after it was
    /// cancelled goes down again: the caller asked for nothing to run.
    /// Returns what is reported; the pipeline is kept when it runs.
    pub fn start_finished(&mut self, result: Result<(), CaptureError>, cancelled: bool) -> (r:
        Result<(), CaptureError>)
        ensures
            final(self).starting == false,
            result is Ok && cancelled ==> r == Err::<(), CaptureError>(CaptureError::Cancelled)
                && final(self).running == old(self).running,
            result is Ok && !cancelled ==> r is Ok && final(self).running,
            result matches Err(e) ==> r == Err::<(), CaptureError>(e) && final(self).running
                == old(self).running,
    {
        self.starting = false;
        match result {
            Ok(()) => {
                if cancelled {
                    Err(CaptureError::Cancelled)
                } else {
                    self.running = true;
                    Ok(())
                }
            },
            Err(e) => Err(e),
        }
    }

    /// Ends the capture and a start in flight.
    pub fn stop(&mut self)
        ensures
            !final(self).running,
            !final(self).starting,
    {
        self.running = false;
        self.starting = false;
    }
}

/// The error of a start whose thread could not be spawned.
pub fn spawn_error(reason: &str) -> (r: CaptureError)
    ensures
        r matches CaptureError::PipelineBuild(text) && text@
            == "could not spawn the capture start thread: "@ + reason@,
{
    CaptureError::PipelineBuild(join2("could not spawn the capture start thread: ", reason))
}

/// The first element that is missing is named; nothing is where every one is
/// registered.
pub proof fn the_first_missing_element_is_named(
    needed: Seq<Seq<char>>,
    registered: Seq<Seq<char>>,
    i: int,
)
    ensures
        0 <= i < needed.len() && !registered.contains(needed[i]) && (forall|k: int|
            0 <= k < i ==> registered.contains(#[trigger] needed[k])) ==> first_missing(
            needed,
            registered,
        ) == Some(needed[i]),
        (forall|k: int| 0 <= k < needed.len() ==> registered.contains(#[trigger] needed[k]))
            ==> first_missing(needed, registered) is None,
    decreases needed.len(),
{
    if needed.len() > 0 {
        let rest = needed.drop_first();
        assert(forall|k: int| 0 <= k < rest.len() ==> rest[k] == needed[k + 1]);
        the_first_missing_element_is_named(rest, registered, i - 1);
        if registered.contains(needed[0]) && 0 < i < needed.len() {
            assert(rest[i - 1] == needed[i]);
        }
    }
}

/// A stream has the size and the rate that its caps say, and a rate can always be
/// divided by.
pub proof fn a_stream_is_what_its_caps_say(fields: CapsFields)
    ensures
        stream_of(fields).fps_den >= 1,
        fields.width is Some && fields.width->0 >= 0 ==> stream_of(fields).width
            == fields.width->0,
        fields.height is Some && fields.height->0 >= 0 ==> stream_of(fields).height
            == fields.height->0,
        fields.framerate is Some && (fields.framerate->0).0 >= 0 ==> stream_of(fields).fps_num
            == (fields.framerate->0).0,
        fields.framerate is Some && (fields.framerate->0).1 >= 1 ==> stream_of(fields).fps_den
            == (fields.framerate->0).1,
        fields.width is None ==> stream_of(fields).width == 0,
        fields.height is None ==> stream_of(fields).height == 0,
        fields.framerate is None ==> stream_of(fields).fps_num == 0 && stream_of(fields).fps_den
            == 1,
{
}

/// A frame has the running time of its buffer where there is one, and its time
/// stamp otherwise; it is a keyframe unless it builds on others.
pub proof fn a_frame_has_the_time_of_its_buffer(buffer: BufferFields)
    ensures
        ({
            let frame = frame_of(buffer);
            &&& buffer.pts_running is Some ==> frame.pts == buffer.pts_running->0
            &&& buffer.pts_running is None && buffer.pts is Some ==> frame.pts == buffer.pts->0
            &&& frame.dts is Some <==> buffer.dts is Some
            &&& buffer.dts is Some && buffer.dts_running is Some ==> frame.dts->0
                == buffer.dts_running->0
            &&& buffer.dts is Some && buffer.dts_running is None ==> frame.dts->0 == buffer.dts->0
            &&& frame.duration == buffer.duration
            &&& frame.keyframe <==> !buffer.delta_unit
        }),
{
}

/// Behind the head a capture encodes, parses and hands whole frames over, in this
/// order, with a little slack before where that is asked for.
pub proof fn a_capture_ends_in_the_frame_sink(
    spec: EncoderSpec,
    tuning: EncoderTuning,
    queue: bool,
)
    ensures
        ({
            let tail = encoder_tail(spec, tuning, queue);
            let n = tail.len() as int;
            &&& n == if queue {
                4int
            } else {
                3
            }
            &&& tail[n - 1].element == "appsink"@
            &&& tail[n - 2].element == "h264parse"@
            &&& tail[n - 3].element == spec.element@
            &&& queue ==> tail[0].element == "queue"@
            &&& tail[n - 3].settings == crate::encoders::profile_of(
                spec.kind,
                spec.element@,
                tuning,
            )
        }),
{
}

/// Where frames wait for the encoder, four may wait, and then the oldest go; what is
/// encoded is kept and handed on at once, with its headers before every key frame.
pub proof fn frames_wait_for_nothing(spec: EncoderSpec, tuning: EncoderTuning)
    ensures
        ({
            let tail = encoder_tail(spec, tuning, true);
            &&& tail.len() == 4
            &&& tail.skip(1) == encoder_tail(spec, tuning, false)
            &&& tail[0].element == "queue"@
            &&& tail[0].settings.contains(crate::encoders::number("max-size-buffers", 4))
            &&& tail[0].settings.contains(crate::encoders::number("max-size-bytes", 0))
            &&& tail[0].settings.contains(crate::encoders::number("max-size-time", 0))
            &&& tail[0].settings.contains(crate::encoders::nick("leaky", "downstream"))
            &&& tail[1].element == spec.element@
            &&& tail[2].element == "h264parse"@
            &&& tail[2].settings.contains(crate::encoders::number("config-interval", -1))
            &&& tail[3].element == "appsink"@
            &&& tail[3].settings.contains(crate::encoders::number("max-buffers", 8))
            &&& tail[3].settings.contains(
                (Setting { name: "sync", value: Value::Switch(false) }),
            )
            &&& tail[3].settings.contains(
                (Setting { name: "drop", value: Value::Switch(false) }),
            )
        }),
{
    let tail = encoder_tail(spec, tuning, true);
    assert(tail.skip(1) =~= encoder_tail(spec, tuning, false));
    let queue = tail[0].settings;
    assert(queue[0] == crate::encoders::number("max-size-buffers", 4));
    assert(queue[1] == crate::encoders::number("max-size-bytes", 0));
    assert(queue[2] == crate::encoders::number("max-size-time", 0));
    assert(queue[3] == crate::encoders::nick("leaky", "downstream"));
    assert(tail[2].settings[0] == crate::encoders::number("config-interval", -1));
    let sink = tail[3].settings;
    assert(sink[1] == (Setting { name: "sync", value: Value::Switch(false) }));
    assert(sink[2] == crate::encoders::number("max-buffers", 8));
    assert(sink[3] == (Setting { name: "drop", value: Value::Switch(false) }));
}

/// A sample has its running time, without one the time on its buffer, and starts
/// at zero without either.
pub proof fn a_sample_has_a_time(pts: u64, running: u64)
    ensures
        running_at(Some(pts), Some(running)) == running,
        running_at(None, Some(running)) == running,
        running_at(Some(pts), None) == pts,
        running_at(None, None) == 0,
{
}

} // verus!
