//! Download orchestration: the decision table that turns the wizard's
//! selections into an invocation plan for the external downloader, the
//! progress messages shown while an attempt runs, and the classification
//! of an attempt's outcome into one of the fixed terminal messages.

use vstd::prelude::*;
use vstd::string::StringSliceAdditionalSpecFns;
use crate::app::{DownloadProgress, ProgressModel, format_count};

verus! {

/// What became of one external downloader invocation: either the process
/// could not be started at all, or it exited, leaving a success flag and
/// its captured diagnostic output.
#[derive(Debug, PartialEq, Eq)]
pub enum InvocationOutcome {
    StartFailed,
    Exited { success: bool, stderr: Vec<u8> },
}

/// Mathematical model of [`InvocationPlan`].
#[verifier::ext_equal]
pub struct PlanModel {
    pub format_selector: Seq<char>,
    pub extract_audio: bool,
    pub audio_format: Seq<char>,
    pub skip_download: bool,
    pub sub_langs: Seq<char>,
    pub sub_format: Seq<char>,
}

/// The resolved invocation plan for the external downloader: the
/// stream-selection expression, whether to extract audio and into which
/// codec, and whether to skip the media and fetch subtitles instead, in
/// which language scope and container.
#[derive(Debug, PartialEq, Eq)]
pub struct InvocationPlan {
    pub format_selector: String,
    pub extract_audio: bool,
    pub audio_format: String,
    pub skip_download: bool,
    pub sub_langs: String,
    pub sub_format: String,
}

impl View for InvocationPlan {
    type V = PlanModel;

    open spec fn view(&self) -> PlanModel {
        PlanModel {
            format_selector: self.format_selector@,
            extract_audio: self.extract_audio,
            audio_format: self.audio_format@,
            skip_download: self.skip_download,
            sub_langs: self.sub_langs@,
            sub_format: self.sub_format@,
        }
    }
}

/// The stream-selection expression for each video container: an
/// exact-container pair, then an exact-container best, then the
/// unconstrained best.
pub open spec fn video_selector(format: usize) -> Seq<char> {
    if format == 0 {
        "bestvideo[ext=mp4]+bestaudio[ext=m4a]/best[ext=mp4]/best"@
    } else if format == 1 {
        "bestvideo[ext=webm]+bestaudio/best[ext=mkv]/best"@
    } else {
        "bestvideo[ext=webm]+bestaudio/best[ext=webm]/best"@
    }
}

/// The audio codec each format index stands for.
pub open spec fn audio_codec_name(format: usize) -> Seq<char> {
    if format == 0 {
        "flac"@
    } else if format == 1 {
        "mp3"@
    } else if format == 2 {
        "wav"@
    } else if format == 3 {
        "aac"@
    } else {
        "m4a"@
    }
}

/// The subtitle language scope each format index stands for: English only,
/// or every available language.
pub open spec fn sub_langs_name(format: usize) -> Seq<char> {
    if format == 0 {
        "en"@
    } else {
        "all"@
    }
}

/// The invocation plan resolved from a download type and a format index.
pub open spec fn plan_spec(download_type: usize, format: usize) -> PlanModel {
    if download_type == 0 {
        PlanModel {
            format_selector: video_selector(format),
            extract_audio: false,
            audio_format: Seq::empty(),
            skip_download: false,
            sub_langs: Seq::empty(),
            sub_format: Seq::empty(),
        }
    } else if download_type == 1 {
        PlanModel {
            format_selector: "bestaudio/best"@,
            extract_audio: true,
            audio_format: audio_codec_name(format),
            skip_download: false,
            sub_langs: Seq::empty(),
            sub_format: Seq::empty(),
        }
    } else {
        PlanModel {
            format_selector: Seq::empty(),
            extract_audio: false,
            audio_format: Seq::empty(),
            skip_download: true,
            sub_langs: sub_langs_name(format),
            sub_format: "srt"@,
        }
    }
}

/// The progress line shown from the moment an attempt is issued, naming
/// the resolved format rather than its raw index.
pub open spec fn start_message(download_type: usize, format: usize) -> Seq<char> {
    if download_type == 0 {
        if format == 0 {
            "Downloading video in mp4 format..."@
        } else if format == 1 {
            "Downloading video in mkv format..."@
        } else {
            "Downloading video in webm format..."@
        }
    } else if download_type == 1 {
        if format == 0 {
            "Downloading audio in flac format..."@
        } else if format == 1 {
            "Downloading audio in mp3 format..."@
        } else if format == 2 {
            "Downloading audio in wav format..."@
        } else if format == 3 {
            "Downloading audio in aac format..."@
        } else {
            "Downloading audio in m4a format..."@
        }
    } else {
        "Downloading subtitles..."@
    }
}

/// Whether `needle` occurs as a contiguous run somewhere in `hay`.
pub open spec fn contains_seq(hay: Seq<u8>, needle: Seq<u8>) -> bool {
    exists|i: int|
        0 <= i && i + needle.len() <= hay.len() && #[trigger] hay.subrange(i, i + needle.len())
            == needle
}

/// Whether diagnostic output carries the subtitle-unavailability marker,
/// in either capitalisation the external tool is known to emit.
pub open spec fn has_no_subtitles_marker(s: Seq<u8>) -> bool {
    contains_seq(s, "no subtitles".spec_bytes()) || contains_seq(s, "No subtitles".spec_bytes())
}

/// Terminal message for a successful attempt.
pub open spec fn complete_message() -> Seq<char> {
    "Download complete! Press 'r' to restart or 'q' to quit"@
}

/// Terminal message for a subtitle request the source had no subtitles for.
pub open spec fn no_subtitles_message() -> Seq<char> {
    "No subtitles available! Press 'r' to restart or 'q' to quit"@
}

/// Terminal message for an attempt that could not be started or failed.
pub open spec fn failed_message() -> Seq<char> {
    "Download failed! Press 'r' to restart or 'q' to quit"@
}

/// The terminal message an attempt's outcome is classified into:
/// - a subtitle request whose diagnostics carry the marker is reported as
///   "no subtitles", whatever the exit status;
/// - any other failure whose diagnostics carry the marker is reported the
///   same way, any other success as complete;
/// - everything else, including a process that never started, failed.
pub open spec fn outcome_message(download_type: usize, outcome: InvocationOutcome) -> Seq<char> {
    match outcome {
        InvocationOutcome::StartFailed => failed_message(),
        InvocationOutcome::Exited { success, stderr } => {
            if success {
                if download_type == 2 && has_no_subtitles_marker(stderr@) {
                    no_subtitles_message()
                } else {
                    complete_message()
                }
            } else {
                if has_no_subtitles_marker(stderr@) {
                    no_subtitles_message()
                } else {
                    failed_message()
                }
            }
        },
    }
}

/// Law: every outcome is classified into one of exactly three terminal
/// messages, and each of them is non-empty — so once the worker writes
/// the outcome and clears the active flag, the interaction loop's
/// completion check (inactive record, non-empty message) is guaranteed
/// to observe it.
pub proof fn lemma_outcome_message_fixed_set(download_type: usize, outcome: InvocationOutcome)
    ensures
        outcome_message(download_type, outcome) == complete_message() || outcome_message(
            download_type,
            outcome,
        ) == no_subtitles_message() || outcome_message(download_type, outcome)
            == failed_message(),
        outcome_message(download_type, outcome).len() > 0,
{
    reveal_strlit("Download complete! Press 'r' to restart or 'q' to quit");
    reveal_strlit("No subtitles available! Press 'r' to restart or 'q' to quit");
    reveal_strlit("Download failed! Press 'r' to restart or 'q' to quit");
}

/// Law: the three terminal messages are pairwise distinct, so the status
/// text alone tells the three outcomes apart.
pub proof fn lemma_terminal_messages_distinct()
    ensures
        complete_message() != no_subtitles_message(),
        complete_message() != failed_message(),
        no_subtitles_message() != failed_message(),
{
    reveal_strlit("Download complete! Press 'r' to restart or 'q' to quit");
    reveal_strlit("No subtitles available! Press 'r' to restart or 'q' to quit");
    reveal_strlit("Download failed! Press 'r' to restart or 'q' to quit");
    assert(complete_message().len() != no_subtitles_message().len());
    assert(complete_message().len() != failed_message().len());
    assert(no_subtitles_message().len() != failed_message().len());
}

/// Whether `needle` occurs as a contiguous run in `hay`.
fn contains_bytes(hay: &Vec<u8>, needle: &[u8]) -> (r: bool)
    ensures
        r == contains_seq(hay@, needle@),
{
    let n = hay.len();
    let m = needle.len();
    if m == 0 {
        proof {
            assert(hay@.subrange(0, 0 + needle@.len() as int) =~= needle@);
        }
        return true;
    }
    if m > n {
        return false;
    }
    let mut i: usize = 0;
    while i <= n - m
        invariant
            m <= n,
            n == hay@.len(),
            m == needle@.len(),
            1 <= m,
            i <= n - m + 1,
            forall|k: int|
                0 <= k < i ==> #[trigger] hay@.subrange(k, k + needle@.len() as int) != needle@,
        decreases n - m + 1 - i,
    {
        let mut j: usize = 0;
        let mut matched = true;
        while matched && j < m
            invariant
                i + m <= n,
                n == hay@.len(),
                m == needle@.len(),
                j <= m,
                matched ==> forall|l: int| 0 <= l < j ==> hay@[i + l] == #[trigger] needle@[l],
                !matched ==> hay@.subrange(i as int, i + needle@.len() as int) != needle@,
            decreases m - j,
        {
            if hay[i + j] != needle[j] {
                proof {
                    assert(hay@.subrange(i as int, i + needle@.len() as int)[j as int]
                        == hay@[i + j]);
                }
                matched = false;
            }
            j += 1;
        }
        if matched {
            proof {
                assert(hay@.subrange(i as int, i + needle@.len() as int) =~= needle@);
            }
            return true;
        }
        i += 1;
    }
    proof {
        assert forall|k: int|
            0 <= k && k + needle@.len() <= hay@.len() implies #[trigger] hay@.subrange(
            k,
            k + needle@.len() as int,
        ) != needle@ by {
            assert(k < i);
        }
    }
    false
}

/// Whether captured diagnostic output carries the subtitle-unavailability
/// marker in either of its two known spellings.
pub fn stderr_has_marker(stderr: &Vec<u8>) -> (r: bool)
    ensures
        r == has_no_subtitles_marker(stderr@),
{
    if contains_bytes(stderr, "no subtitles".as_bytes()) {
        return true;
    }
    contains_bytes(stderr, "No subtitles".as_bytes())
}

/// The terminal message for a successful attempt, as shown to the user.
pub fn complete_text() -> (s: String)
    ensures
        s@ == complete_message(),
{
    "Download complete! Press 'r' to restart or 'q' to quit".to_owned()
}

/// The terminal message for a subtitle request nothing was available for.
pub fn no_subtitles_text() -> (s: String)
    ensures
        s@ == no_subtitles_message(),
{
    "No subtitles available! Press 'r' to restart or 'q' to quit".to_owned()
}

/// The terminal message for a failed or never-started attempt.
pub fn failed_text() -> (s: String)
    ensures
        s@ == failed_message(),
{
    "Download failed! Press 'r' to restart or 'q' to quit".to_owned()
}

/// Resolves a video download: picks the container's fallback chain and
/// posts the progress line naming the container.
pub fn configure_video_download(format: usize, progress: &mut DownloadProgress) -> (plan:
    InvocationPlan)
    requires
        format < 3,
    ensures
        plan@ == plan_spec(0, format),
        final(progress)@ == (ProgressModel {
            message: start_message(0, format),
            ..old(progress)@
        }),
{
    let selector = if format == 0 {
        "bestvideo[ext=mp4]+bestaudio[ext=m4a]/best[ext=mp4]/best".to_owned()
    } else if format == 1 {
        "bestvideo[ext=webm]+bestaudio/best[ext=mkv]/best".to_owned()
    } else {
        "bestvideo[ext=webm]+bestaudio/best[ext=webm]/best".to_owned()
    };
    progress.message = if format == 0 {
        "Downloading video in mp4 format...".to_owned()
    } else if format == 1 {
        "Downloading video in mkv format...".to_owned()
    } else {
        "Downloading video in webm format...".to_owned()
    };
    let plan = InvocationPlan {
        format_selector: selector,
        extract_audio: false,
        audio_format: String::new(),
        skip_download: false,
        sub_langs: String::new(),
        sub_format: String::new(),
    };
    proof {
        assert(plan@ =~= plan_spec(0, format));
        assert(progress@ =~= (ProgressModel {
            message: start_message(0, format),
            ..old(progress)@
        }));
    }
    plan
}

/// Resolves an audio download: best audio-only stream, extracted into the
/// chosen codec, and posts the progress line naming the codec.
pub fn configure_audio_download(format: usize, progress: &mut DownloadProgress) -> (plan:
    InvocationPlan)
    requires
        format < 5,
    ensures
        plan@ == plan_spec(1, format),
        final(progress)@ == (ProgressModel {
            message: start_message(1, format),
            ..old(progress)@
        }),
{
    let codec = if format == 0 {
        "flac".to_owned()
    } else if format == 1 {
        "mp3".to_owned()
    } else if format == 2 {
        "wav".to_owned()
    } else if format == 3 {
        "aac".to_owned()
    } else {
        "m4a".to_owned()
    };
    progress.message = if format == 0 {
        "Downloading audio in flac format...".to_owned()
    } else if format == 1 {
        "Downloading audio in mp3 format...".to_owned()
    } else if format == 2 {
        "Downloading audio in wav format...".to_owned()
    } else if format == 3 {
        "Downloading audio in aac format...".to_owned()
    } else {
        "Downloading audio in m4a format...".to_owned()
    };
    let plan = InvocationPlan {
        format_selector: "bestaudio/best".to_owned(),
        extract_audio: true,
        audio_format: codec,
        skip_download: false,
        sub_langs: String::new(),
        sub_format: String::new(),
    };
    proof {
        assert(plan@ =~= plan_spec(1, format));
        assert(progress@ =~= (ProgressModel {
            message: start_message(1, format),
            ..old(progress)@
        }));
    }
    plan
}

/// Resolves a subtitle download: skips the media entirely and fetches
/// subtitle tracks in the chosen language scope, fixed to the srt
/// container, and posts the subtitle progress line.
pub fn configure_subtitle_download(format: usize, progress: &mut DownloadProgress) -> (plan:
    InvocationPlan)
    requires
        format < 2,
    ensures
        plan@ == plan_spec(2, format),
        final(progress)@ == (ProgressModel {
            message: start_message(2, format),
            ..old(progress)@
        }),
{
    let langs = if format == 0 {
        "en".to_owned()
    } else {
        "all".to_owned()
    };
    progress.message = "Downloading subtitles...".to_owned();
    let plan = InvocationPlan {
        format_selector: String::new(),
        extract_audio: false,
        audio_format: String::new(),
        skip_download: true,
        sub_langs: langs,
        sub_format: "srt".to_owned(),
    };
    proof {
        assert(plan@ =~= plan_spec(2, format));
        assert(progress@ =~= (ProgressModel {
            message: start_message(2, format),
            ..old(progress)@
        }));
    }
    plan
}

/// Resolves the invocation plan for any validated selection pair and posts
/// the matching progress line.
pub fn plan_invocation(download_type: usize, format: usize, progress: &mut DownloadProgress) -> (plan:
    InvocationPlan)
    requires
        download_type < 3,
        format < format_count(download_type),
    ensures
        plan@ == plan_spec(download_type, format),
        final(progress)@ == (ProgressModel {
            message: start_message(download_type, format),
            ..old(progress)@
        }),
{
    if download_type == 1 {
        configure_audio_download(format, progress)
    } else if download_type == 0 {
        configure_video_download(format, progress)
    } else {
        configure_subtitle_download(format, progress)
    }
}

/// Writes an attempt's outcome into the progress record: marks it no
/// longer active and sets the message to the outcome's classification.
/// This is the single completion signal the interaction loop watches for.
pub fn update_progress_with_result(
    outcome: &InvocationOutcome,
    download_type: usize,
    progress: &mut DownloadProgress,
)
    ensures
        final(progress)@ == (ProgressModel {
            active: false,
            message: outcome_message(download_type, *outcome),
            spinner_index: old(progress)@.spinner_index,
        }),
        old(progress)@.wf() ==> final(progress)@.wf(),
{
    progress.active = false;
    match outcome {
        InvocationOutcome::StartFailed => {
            progress.message = failed_text();
        },
        InvocationOutcome::Exited { success, stderr } => {
            if *success {
                if download_type == 2 && stderr_has_marker(stderr) {
                    progress.message = no_subtitles_text();
                } else {
                    progress.message = complete_text();
                }
            } else {
                if stderr_has_marker(stderr) {
                    progress.message = no_subtitles_text();
                } else {
                    progress.message = failed_text();
                }
            }
        },
    }
    proof {
        assert(progress@ =~= (ProgressModel {
            active: false,
            message: outcome_message(download_type, *outcome),
            spinner_index: old(progress)@.spinner_index,
        }));
    }
}

} // verus!
