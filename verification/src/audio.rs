//! Audio extraction: the stage's errors and their messages, the bounded tail
//! of ffmpeg's diagnostics quoted in an error, and the choice of the chunk
//! files ffmpeg wrote. Running ffmpeg and reading the file system is done by
//! the caller.

use vstd::prelude::*;
use vstd::string::*;
use crate::text::{
    chars_of, join, join_from, lemma_text_le_total, lemma_text_le_transitive, lines,
    parse_u64_from, parse_u64_text, signed_decimal, i64_to_string, split_lines, starts_with_chars,
    string_from_chars, text_le, text_le_chars, trim, trimmed_chars,
};

verus! {

/// Keep only the last `max_lines` lines of the trimmed `text`.
pub open spec fn tail_of_lines(text: Seq<char>, max_lines: nat) -> Seq<char> {
    let t = trim(text);
    let ls = lines(t);
    if ls.len() <= max_lines {
        t
    } else {
        join(ls.skip(ls.len() - max_lines), seq!['\n'])
    }
}

/// Keep only the last `max_lines` lines of `text`, to avoid dumping an
/// unbounded amount of ffmpeg output into an error message.
pub fn tail_lines(text: &str, max_lines: usize) -> (tail: String)
    ensures
        tail@ == tail_of_lines(text@, max_lines as nat),
{
    let trimmed = trimmed_chars(&chars_of(text));
    let all_lines = split_lines(&trimmed);
    proof {
        assert(all_lines@.map_values(|l: Vec<char>| l@).len() == all_lines@.len());
    }
    if all_lines.len() <= max_lines {
        string_from_chars(&trimmed)
    } else {
        let mut sep: Vec<char> = Vec::new();
        sep.push('\n');
        assert(sep@ == seq!['\n']);
        let from = all_lines.len() - max_lines;
        let joined = join_from(&all_lines, from, &sep);
        proof {
            let views = all_lines@.map_values(|l: Vec<char>| l@);
            assert(views.len() == all_lines@.len());
        }
        string_from_chars(&joined)
    }
}

/// Errors that can occur while extracting audio from a source video.
#[derive(Debug)]
pub enum AudioError {
    /// The video path does not exist or is not a regular file.
    VideoNotFound(String),
    /// The video file exists but could not be opened for reading.
    VideoUnreadable { path: String, reason: String },
    /// `ffmpeg` is not available on `PATH`.
    FfmpegNotFound,
    /// Could not create a per-run temporary workspace directory.
    TempWorkspace(String),
    /// The `ffmpeg` process could not be started.
    FfmpegSpawnFailed(String),
    /// `ffmpeg` exited with a non-zero status.
    FfmpegFailed { status: Option<i32>, stderr: String },
    /// `ffmpeg` exited successfully but did not produce any audio chunks.
    OutputMissing,
    /// The audio scan did not report a usable duration.
    DurationUnavailable,
}

/// The message for a missing ffmpeg.
pub const FFMPEG_NOT_FOUND_MESSAGE: &'static str = "ffmpeg was not found on PATH — install ffmpeg and ensure it is available before running this command";

/// The message for ffmpeg runs that produced no chunk.
pub const OUTPUT_MISSING_MESSAGE: &'static str = "ffmpeg did not produce any audio chunks — the input video may be unsupported or corrupt";

/// The message for an audio scan without a usable duration.
pub const DURATION_UNAVAILABLE_MESSAGE: &'static str = "ffmpeg could not determine the audio duration — the input video may be unsupported or corrupt";

/// How many lines of ffmpeg's diagnostics an error quotes.
pub const STDERR_TAIL_LINES: usize = 20;

/// How an ffmpeg exit status is described.
pub open spec fn status_description(status: Option<i32>) -> Seq<char> {
    match status {
        Some(code) => "exit code "@ + signed_decimal(code as int),
        None => "terminated by a signal"@,
    }
}

impl AudioError {
    /// The human-readable message for this error.
    pub open spec fn describe(&self) -> Seq<char> {
        match self {
            AudioError::VideoNotFound(path) => "video file not found: "@ + path@,
            AudioError::VideoUnreadable { path, reason } => "cannot read video file "@ + path@
                + ": "@ + reason@,
            AudioError::FfmpegNotFound => FFMPEG_NOT_FOUND_MESSAGE@,
            AudioError::TempWorkspace(reason) => "could not create a temporary workspace: "@
                + reason@,
            AudioError::FfmpegSpawnFailed(reason) => "failed to start ffmpeg: "@ + reason@,
            AudioError::FfmpegFailed { status, stderr } => {
                let tail = tail_of_lines(stderr@, STDERR_TAIL_LINES as nat);
                if tail.len() == 0 {
                    "ffmpeg failed ("@ + status_description(*status)
                        + ") with no output on stderr — the input may be unsupported or corrupt"@
                } else {
                    "ffmpeg failed ("@ + status_description(*status) + "):\n"@ + tail
                }
            },
            AudioError::OutputMissing => OUTPUT_MISSING_MESSAGE@,
            AudioError::DurationUnavailable => DURATION_UNAVAILABLE_MESSAGE@,
        }
    }

    /// The human-readable message for this error (what `Display` printed).
    pub fn message(&self) -> (m: String)
        ensures
            m@ == self.describe(),
    {
        match self {
            AudioError::VideoNotFound(path) => {
                let mut m = "video file not found: ".to_owned();
                m.append(path.as_str());
                m
            },
            AudioError::VideoUnreadable { path, reason } => {
                let mut m = "cannot read video file ".to_owned();
                m.append(path.as_str());
                m.append(": ");
                m.append(reason.as_str());
                m
            },
            AudioError::FfmpegNotFound => FFMPEG_NOT_FOUND_MESSAGE.to_owned(),
            AudioError::TempWorkspace(reason) => {
                let mut m = "could not create a temporary workspace: ".to_owned();
                m.append(reason.as_str());
                m
            },
            AudioError::FfmpegSpawnFailed(reason) => {
                let mut m = "failed to start ffmpeg: ".to_owned();
                m.append(reason.as_str());
                m
            },
            AudioError::FfmpegFailed { status, stderr } => {
                let status_desc = match status {
                    Some(code) => {
                        let mut d = "exit code ".to_owned();
                        d.append(i64_to_string(*code as i64).as_str());
                        d
                    },
                    None => "terminated by a signal".to_owned(),
                };
                let stderr_tail = tail_lines(stderr.as_str(), STDERR_TAIL_LINES);
                let mut m = "ffmpeg failed (".to_owned();
                m.append(status_desc.as_str());
                if stderr_tail.as_str().is_empty() {
                    m.append(") with no output on stderr — the input may be unsupported or corrupt");
                } else {
                    m.append("):\n");
                    m.append(stderr_tail.as_str());
                }
                m
            },
            AudioError::OutputMissing => OUTPUT_MISSING_MESSAGE.to_owned(),
            AudioError::DurationUnavailable => DURATION_UNAVAILABLE_MESSAGE.to_owned(),
        }
    }
}

/// The texts of a sequence of strings.
pub open spec fn texts(v: Seq<String>) -> Seq<Seq<char>> {
    v.map_values(|s: String| s@)
}

/// Whether the texts are in ascending order.
pub open spec fn texts_sorted(s: Seq<Seq<char>>) -> bool {
    forall|i: int, j: int| 0 <= i < j < s.len() ==> text_le(#[trigger] s[i], #[trigger] s[j])
}

/// Whether a file name is one of the audio chunks that ffmpeg's segment
/// muxer writes into the workspace: `audio-*.mp3`.
pub open spec fn is_chunk_name(name: Seq<char>) -> bool {
    &&& name.len() >= 6
    &&& name.subrange(0, 6) == seq!['a', 'u', 'd', 'i', 'o', '-']
    &&& name.subrange(name.len() - 4, name.len() as int) == seq!['.', 'm', 'p', '3']
}

fn has_chunk_name(name: &Vec<char>) -> (r: bool)
    ensures
        r == is_chunk_name(name@),
{
    let n = name.len();
    if n < 6 {
        return false;
    }
    let prefix = name[0] == 'a' && name[1] == 'u' && name[2] == 'd' && name[3] == 'i' && name[4]
        == 'o' && name[5] == '-';
    let suffix = name[n - 4] == '.' && name[n - 3] == 'm' && name[n - 2] == 'p' && name[n - 1]
        == '3';
    let ghost pre = name@.subrange(0, 6);
    let ghost suf = name@.subrange(n - 4, n as int);
    assert(prefix <==> pre =~= seq!['a', 'u', 'd', 'i', 'o', '-']) by {
        if pre == seq!['a', 'u', 'd', 'i', 'o', '-'] {
            assert(pre[0] == 'a' && pre[1] == 'u' && pre[2] == 'd' && pre[3] == 'i' && pre[4]
                == 'o' && pre[5] == '-');
        }
    }
    assert(suffix <==> suf =~= seq!['.', 'm', 'p', '3']) by {
        if suf == seq!['.', 'm', 'p', '3'] {
            assert(suf[0] == '.' && suf[1] == 'm' && suf[2] == 'p' && suf[3] == '3');
        }
    }
    prefix && suffix
}

/// Inserting `x` after the texts that come no later than it, and before a
/// text that comes later, keeps ascending texts ascending.
proof fn lemma_insert_keeps_sorted(s: Seq<Seq<char>>, p: int, x: Seq<char>)
    requires
        texts_sorted(s),
        0 <= p <= s.len(),
        forall|k: int| 0 <= k < p ==> text_le(#[trigger] s[k], x),
        p < s.len() ==> text_le(x, s[p]),
    ensures
        texts_sorted(s.insert(p, x)),
{
    let t = s.insert(p, x);
    s.insert_ensures(p, x);
    assert forall|k: int| p <= k < s.len() implies text_le(x, #[trigger] s[k]) by {
        if k > p {
            lemma_text_le_transitive(x, s[p], s[k]);
        }
    }
    assert forall|i: int, j: int| 0 <= i < j < t.len() implies text_le(
        #[trigger] t[i],
        #[trigger] t[j],
    ) by {
        if j < p {
            assert(t[i] == s[i] && t[j] == s[j]);
        } else if j == p {
            assert(t[i] == s[i] && t[j] == x);
        } else if i < p {
            assert(t[i] == s[i] && t[j] == s[j - 1]);
            lemma_text_le_transitive(s[i], x, s[j - 1]);
        } else if i == p {
            assert(t[i] == x && t[j] == s[j - 1]);
        } else {
            assert(t[i] == s[i - 1] && t[j] == s[j - 1]);
        }
    }
}

/// The audio chunks among the file names found in ffmpeg's workspace, in
/// ascending order of their names: the order in which they were recorded.
pub fn audio_chunk_names(names: &Vec<String>) -> (chunks: Vec<String>)
    ensures
        texts_sorted(texts(chunks@)),
        texts(chunks@).to_multiset() == texts(names@).filter(|t: Seq<char>| is_chunk_name(t)).to_multiset(),
{
    let ghost pred = |t: Seq<char>| is_chunk_name(t);
    let ghost all = texts(names@);
    let mut chunks: Vec<String> = Vec::new();
    let mut i: usize = 0;
    assert(all.take(0).filter(pred) =~= Seq::<Seq<char>>::empty());
    assert(texts(chunks@) =~= Seq::<Seq<char>>::empty());
    while i < names.len()
        invariant
            i <= names.len(),
            all == texts(names@),
            pred == (|t: Seq<char>| is_chunk_name(t)),
            texts_sorted(texts(chunks@)),
            texts(chunks@).to_multiset() == all.take(i as int).filter(pred).to_multiset(),
        decreases names.len() - i,
    {
        let name = names[i].clone();
        let chars = chars_of(name.as_str());
        proof {
            assert(all.take(i + 1) =~= all.take(i as int).push(name@));
            all.take(i as int).lemma_filter_push(name@, pred);
        }
        if has_chunk_name(&chars) {
            let mut p: usize = 0;
            while p < chunks.len()
                invariant
                    p <= chunks.len(),
                    chars@ == name@,
                    forall|k: int| 0 <= k < p ==> text_le(#[trigger] texts(chunks@)[k], name@),
                ensures
                    p <= chunks.len(),
                    forall|k: int| 0 <= k < p ==> text_le(#[trigger] texts(chunks@)[k], name@),
                    p < chunks.len() ==> !text_le(texts(chunks@)[p as int], name@),
                decreases chunks.len() - p,
            {
                let current = chars_of(chunks[p].as_str());
                if !text_le_chars(&current, &chars) {
                    break;
                }
                p = p + 1;
            }
            let ghost before = texts(chunks@);
            proof {
                if p < chunks.len() {
                    lemma_text_le_total(before[p as int], name@);
                }
                lemma_insert_keeps_sorted(before, p as int, name@);
                vstd::seq_lib::to_multiset_insert(before, p as int, name@);
            }
            chunks.insert(p, name);
            assert(texts(chunks@) =~= before.insert(p as int, names@[i as int]@));
            proof {
                assert(pred(names@[i as int]@));
                vstd::seq_lib::to_multiset_build(all.take(i as int).filter(pred), names@[i as int]@);
            }
        } else {
            assert(!pred(names@[i as int]@));
        }
        i = i + 1;
    }
    assert(all.take(names.len() as int) =~= all);
    chunks
}

/// Whether every chunk that ffmpeg wrote is a nonempty regular file: a chunk
/// is described by its length when it is a regular file, and by `None` when
/// it is not or its metadata could not be read.
pub open spec fn chunks_complete(files: Seq<Option<u64>>) -> bool {
    &&& files.len() > 0
    &&& forall|i: int| 0 <= i < files.len() ==> (#[trigger] files[i] matches Some(len) && len > 0)
}

/// Accept the chunks that ffmpeg wrote only when there is at least one and
/// each is a nonempty regular file; otherwise the output is missing.
pub fn check_chunk_files(files: &Vec<Option<u64>>) -> (r: Result<(), AudioError>)
    ensures
        r is Ok <==> chunks_complete(files@),
        r matches Err(e) ==> e is OutputMissing,
{
    if files.len() == 0 {
        return Err(AudioError::OutputMissing);
    }
    let mut i: usize = 0;
    while i < files.len()
        invariant
            i <= files.len(),
            forall|k: int| 0 <= k < i ==> (#[trigger] files@[k] matches Some(len) && len > 0),
        decreases files.len() - i,
    {
        match files[i] {
            Some(len) => {
                if len == 0 {
                    return Err(AudioError::OutputMissing);
                }
            },
            None => {
                return Err(AudioError::OutputMissing);
            },
        }
        i = i + 1;
    }
    Ok(())
}

/// The key under which ffmpeg's `-progress` output reports the processed
/// time, in microseconds.
pub const OUT_TIME_KEY: &'static str = "out_time_us=";

/// The processed time a progress line reports: the value after
/// `out_time_us=`, when it parses as a `u64`.
pub open spec fn out_time_value(line: Seq<char>) -> Option<u64> {
    let key = OUT_TIME_KEY@;
    if key.len() <= line.len() && line.subrange(0, key.len() as int) == key {
        parse_u64_text(line.skip(key.len() as int))
    } else {
        None
    }
}

/// The last processed time reported among progress lines.
pub open spec fn last_out_time(ls: Seq<Seq<char>>) -> Option<u64>
    decreases ls.len(),
{
    if ls.len() == 0 {
        None
    } else {
        match out_time_value(ls.last()) {
            Some(v) => Some(v),
            None => last_out_time(ls.drop_last()),
        }
    }
}

/// The decoded audio duration, in microseconds, read from ffmpeg's
/// `-progress` output: the last processed time it reports, which must be
/// positive; otherwise the duration is unavailable.
pub fn scan_duration_micros(progress: &str) -> (r: Result<u64, AudioError>)
    ensures
        match last_out_time(lines(progress@)) {
            Some(v) => if v > 0 {
                r == Ok::<u64, AudioError>(v)
            } else {
                r matches Err(AudioError::DurationUnavailable)
            },
            None => r matches Err(AudioError::DurationUnavailable),
        },
{
    let all_lines = split_lines(&chars_of(progress));
    let key = chars_of(OUT_TIME_KEY);
    let ghost views = all_lines@.map_values(|l: Vec<char>| l@);
    let mut last: Option<u64> = None;
    let mut i: usize = 0;
    assert(views.take(0) =~= Seq::<Seq<char>>::empty());
    while i < all_lines.len()
        invariant
            i <= all_lines.len(),
            views == all_lines@.map_values(|l: Vec<char>| l@),
            views == lines(progress@),
            key@ == OUT_TIME_KEY@,
            last == last_out_time(views.take(i as int)),
        decreases all_lines.len() - i,
    {
        let line = &all_lines[i];
        assert(views.take(i + 1).drop_last() =~= views.take(i as int));
        assert(views.take(i + 1).last() == line@);
        if starts_with_chars(line, &key) {
            match parse_u64_from(line, key.len()) {
                Some(v) => {
                    last = Some(v);
                },
                None => {},
            }
        }
        i = i + 1;
    }
    assert(views.take(all_lines.len() as int) =~= views);
    match last {
        Some(v) => if v > 0 {
            Ok(v)
        } else {
            Err(AudioError::DurationUnavailable)
        },
        None => Err(AudioError::DurationUnavailable),
    }
}

/// Decide whether the video can be read, given what the file system
/// reported: whether the path names a regular file (`None` when its metadata
/// could not be read), and, for a regular file, the error met opening it for
/// reading, if any.
pub fn check_video_file(video_path: &str, is_file: Option<bool>, open_error: Option<String>) -> (r:
    Result<(), AudioError>)
    ensures
        match is_file {
            Some(true) => match open_error {
                None => r is Ok,
                Some(reason) => r matches Err(AudioError::VideoUnreadable { path, reason: why })
                    && path@ == video_path@ && why == reason,
            },
            _ => r matches Err(AudioError::VideoNotFound(path)) && path@ == video_path@,
        },
{
    match is_file {
        Some(true) => match open_error {
            None => Ok(()),
            Some(reason) => Err(AudioError::VideoUnreadable { path: video_path.to_owned(), reason }),
        },
        _ => Err(AudioError::VideoNotFound(video_path.to_owned())),
    }
}

/// What became of running `ffmpeg -version` to see whether ffmpeg is there.
#[derive(Debug)]
pub enum FfmpegProbe {
    /// The process ran and exited, successfully or not.
    Exited { success: bool },
    /// No executable of that name was found.
    NotFound,
    /// The process could not be started for another reason, described.
    SpawnFailed(String),
}

/// Decide from the probe whether ffmpeg is available: only a successful run
/// counts; a failed run or a missing executable means ffmpeg was not found.
pub fn check_ffmpeg_probe(probe: FfmpegProbe) -> (r: Result<(), AudioError>)
    ensures
        match probe {
            FfmpegProbe::Exited { success } => if success {
                r is Ok
            } else {
                r matches Err(AudioError::FfmpegNotFound)
            },
            FfmpegProbe::NotFound => r matches Err(AudioError::FfmpegNotFound),
            FfmpegProbe::SpawnFailed(reason) => r matches Err(AudioError::FfmpegSpawnFailed(why))
                && why == reason,
        },
{
    match probe {
        FfmpegProbe::Exited { success } => if success {
            Ok(())
        } else {
            Err(AudioError::FfmpegNotFound)
        },
        FfmpegProbe::NotFound => Err(AudioError::FfmpegNotFound),
        FfmpegProbe::SpawnFailed(reason) => Err(AudioError::FfmpegSpawnFailed(reason)),
    }
}

} // verus!
