//! Image build core: consumes the streamed sequence of build progress frames,
//! accumulates a normalized log, and decides the build outcome once the
//! stream is exhausted.

use vstd::prelude::*;
use vstd::string::*;

verus! {

/// One unit of a streamed build response. Log frames carry a free-text
/// progress line; auxiliary frames are opaque metadata and are ignored;
/// transport-error frames are protocol-level failures that do not abort the
/// drain.
pub enum BuildFrame {
    LogLine(String),
    Auxiliary,
    TransportError(String),
}

/// The payload of a successful build: the accumulated log and the image
/// identifier the build was tagged with.
#[derive(Debug)]
pub struct DockerImageBuildResult {
    pub log: Vec<String>,
    pub image_id: String,
}

/// A failed build, carrying the accumulated log for diagnosis.
#[derive(Debug)]
pub struct BuildError {
    pub reason: String,
    pub log: Vec<String>,
}

/// The build instructions submitted to the runtime along with a packaged
/// archive: the instruction file expected at the archive's root, the tag the
/// image is built under, and removal of intermediate containers.
#[derive(Debug)]
pub struct BuildSubmission {
    pub dockerfile_name: String,
    pub tag: String,
    pub remove_intermediate: bool,
}

/// Frames the build instructions for a build id: the image is tagged with the
/// id, the instruction file is `Dockerfile` at the archive root, and
/// intermediate containers are removed.
pub fn build_submission(build_id: &str) -> (r: BuildSubmission)
    ensures
        r.dockerfile_name@ == "Dockerfile"@,
        r.tag@ == build_id@,
        r.remove_intermediate,
{
    BuildSubmission {
        dockerfile_name: String::from_str("Dockerfile"),
        tag: String::from_str(build_id),
        remove_intermediate: true,
    }
}

/// A log line with its trailing newline characters stripped.
pub open spec fn normalized_line(s: Seq<char>) -> Seq<char>
    decreases s.len(),
{
    if s.len() > 0 && s.last() == '\n' {
        normalized_line(s.drop_last())
    } else {
        s
    }
}

/// The log that draining a frame sequence accumulates: the normalized text of
/// each log frame, in arrival order, with lines that normalize to empty
/// dropped and other frame kinds ignored.
pub open spec fn frame_log(frames: Seq<BuildFrame>) -> Seq<Seq<char>>
    decreases frames.len(),
{
    if frames.len() == 0 {
        Seq::<Seq<char>>::empty()
    } else {
        let rest = frame_log(frames.drop_last());
        match frames.last() {
            BuildFrame::LogLine(s) => if normalized_line(s@).len() > 0 {
                rest.push(normalized_line(s@))
            } else {
                rest
            },
            _ => rest,
        }
    }
}

/// Whether a frame sequence holds at least one transport-error frame.
pub open spec fn has_transport_error(frames: Seq<BuildFrame>) -> bool
    decreases frames.len(),
{
    if frames.len() == 0 {
        false
    } else {
        has_transport_error(frames.drop_last()) || frames.last() is TransportError
    }
}

/// Auxiliary frames leave the accumulated log unchanged.
pub proof fn lemma_log_ignores_auxiliary(frames: Seq<BuildFrame>)
    ensures
        frame_log(frames.push(BuildFrame::Auxiliary)) == frame_log(frames),
{
    assert(frames.push(BuildFrame::Auxiliary).drop_last() =~= frames);
}

/// Transport-error frames leave the accumulated log unchanged: they are
/// drained, not logged.
pub proof fn lemma_log_ignores_transport_error(frames: Seq<BuildFrame>, cause: String)
    ensures
        frame_log(frames.push(BuildFrame::TransportError(cause))) == frame_log(frames),
{
    assert(frames.push(BuildFrame::TransportError(cause)).drop_last() =~= frames);
}

/// A log frame that normalizes to empty is dropped; any other log frame
/// appends its normalized text, so arrival order is preserved.
pub proof fn lemma_log_appends_normalized(frames: Seq<BuildFrame>, line: String)
    ensures
        normalized_line(line@).len() == 0 ==> frame_log(frames.push(BuildFrame::LogLine(line)))
            == frame_log(frames),
        normalized_line(line@).len() > 0 ==> frame_log(frames.push(BuildFrame::LogLine(line)))
            == frame_log(frames).push(normalized_line(line@)),
{
    assert(frames.push(BuildFrame::LogLine(line)).drop_last() =~= frames);
}

/// Strips trailing newline characters from one log frame.
pub fn normalize_line(s: &str) -> (r: String)
    ensures
        r@ == normalized_line(s@),
{
    let n = s.unicode_len();
    proof {
        assert(s@.subrange(0, n as int) =~= s@);
    }
    let mut end = n;
    while end > 0 && s.get_char(end - 1) == '\n'
        invariant
            end <= n,
            n == s@.len(),
            normalized_line(s@) == normalized_line(s@.subrange(0, end as int)),
        decreases end,
    {
        proof {
            assert(s@.subrange(0, end as int).drop_last() =~= s@.subrange(0, end - 1));
            assert(s@.subrange(0, end as int).last() == s@[end - 1]);
        }
        end -= 1;
    }
    proof {
        let pre = s@.subrange(0, end as int);
        if end > 0 {
            assert(pre.last() == s@[end - 1]);
        }
        assert(normalized_line(pre) == pre);
    }
    String::from_str(s.substring_char(0, end))
}

/// The drain of one build stream: frames are pushed in arrival order, the
/// normalized log and the transport-error flag are maintained across pushes.
pub struct StreamDrain {
    lines: Vec<String>,
    transport_error_seen: bool,
    frames: Ghost<Seq<BuildFrame>>,
}

impl StreamDrain {
    /// The frames pushed so far, in arrival order.
    pub closed spec fn frames_seen(self) -> Seq<BuildFrame> {
        self.frames@
    }

    /// The accumulated log.
    pub closed spec fn log(self) -> Seq<Seq<char>> {
        self.lines.deep_view()
    }

    /// The drain's invariant: the log and the error flag agree with the
    /// frames pushed so far.
    pub closed spec fn wf(self) -> bool {
        &&& self.log() == frame_log(self.frames@)
        &&& self.transport_error_seen == has_transport_error(self.frames@)
    }

    pub fn new() -> (d: StreamDrain)
        ensures
            d.wf(),
            d.frames_seen() == Seq::<BuildFrame>::empty(),
    {
        let d = StreamDrain {
            lines: Vec::new(),
            transport_error_seen: false,
            frames: Ghost(Seq::empty()),
        };
        proof {
            assert(d.lines.deep_view() =~= frame_log(d.frames@));
        }
        d
    }

    /// Consumes one frame: a log frame contributes its normalized text when
    /// non-empty, an auxiliary frame is ignored, a transport-error frame sets
    /// the error flag and the drain goes on.
    pub fn push_frame(&mut self, frame: BuildFrame)
        requires
            old(self).wf(),
        ensures
            final(self).wf(),
            final(self).frames_seen() == old(self).frames_seen().push(frame),
    {
        proof {
            assert(old(self).frames@.push(frame).drop_last() =~= old(self).frames@);
        }
        match &frame {
            BuildFrame::LogLine(s) => {
                let line = normalize_line(s.as_str());
                if line.as_str().unicode_len() > 0 {
                    self.lines.push(line);
                    proof {
                        assert(self.lines.deep_view() =~= old(self).lines.deep_view().push(
                            normalized_line(frame->LogLine_0@),
                        ));
                    }
                }
            },
            BuildFrame::Auxiliary => (),
            BuildFrame::TransportError(_) => {
                self.transport_error_seen = true;
            },
        }
        proof {
            self.frames@ = old(self).frames@.push(frame);
        }
    }

    /// Whether a transport-error frame has arrived so far.
    pub fn saw_transport_error(&self) -> (b: bool)
        requires
            self.wf(),
        ensures
            b == has_transport_error(self.frames_seen()),
    {
        self.transport_error_seen
    }

    /// Decides the outcome once the stream is exhausted. In strict mode a
    /// drained transport error fails the build; otherwise such frames are
    /// ignored, as the lenient policy has it. Either way the accumulated log
    /// is handed back.
    pub fn finish(self, build_id: String, strict: bool) -> (r: Result<
        DockerImageBuildResult,
        BuildError,
    >)
        requires
            self.wf(),
        ensures
            (strict && has_transport_error(self.frames_seen())) <==> r is Err,
            r matches Ok(b) ==> b.log.deep_view() == frame_log(self.frames_seen()) && b.image_id
                == build_id,
            r matches Err(e) ==> e.log.deep_view() == frame_log(self.frames_seen()) && e.reason@
                == "transport error while draining build stream"@,
    {
        if strict && self.transport_error_seen {
            Result::Err(
                BuildError {
                    reason: String::from_str("transport error while draining build stream"),
                    log: self.lines,
                },
            )
        } else {
            Result::Ok(DockerImageBuildResult { log: self.lines, image_id: build_id })
        }
    }
}

/// Drains an already-collected frame sequence in order and returns the
/// accumulated normalized log.
pub fn frame_lines(frames: Vec<BuildFrame>) -> (log: Vec<String>)
    ensures
        log.deep_view() == frame_log(frames@),
{
    let ghost orig = frames@;
    let mut rest = frames;
    let mut drain = StreamDrain::new();
    while rest.len() > 0
        invariant
            drain.wf(),
            drain.frames_seen() + rest@ =~= orig,
        decreases rest@.len(),
    {
        let f = rest.remove(0);
        drain.push_frame(f);
    }
    proof {
        assert(drain.frames_seen() =~= orig);
    }
    let r = drain.finish(String::new(), false);
    match r {
        Result::Ok(b) => b.log,
        Result::Err(_) => unreached(),
    }
}

} // verus!
