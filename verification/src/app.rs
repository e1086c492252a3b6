//! Wizard state: the step enumeration, the accumulated selections, and the
//! shared progress record that bridges the interaction loop and the
//! download worker.

use vstd::prelude::*;

verus! {

/// The screens of the wizard, exactly one of which is current at any time.
/// Ordering is linear except `Complete -> SelectType` (restart) and
/// `Confirm -> SelectType` (cancel).
#[derive(Clone, Copy, Debug, PartialEq, Eq, Structural)]
pub enum AppStep {
    SelectType,
    EnterUrl,
    SelectFormat,
    Confirm,
    Downloading,
    Complete,
}

/// Mathematical model of [`AppState`]: the same fields with strings viewed
/// as character sequences.
#[verifier::ext_equal]
pub struct AppModel {
    pub step: AppStep,
    pub download_type: Option<usize>,
    pub url: Seq<char>,
    pub format: Option<usize>,
    pub status: Seq<char>,
    pub selected: usize,
    pub input_mode: bool,
}

/// Mathematical model of [`DownloadProgress`].
#[verifier::ext_equal]
pub struct ProgressModel {
    pub active: bool,
    pub message: Seq<char>,
    pub spinner_index: usize,
}

/// The wizard's current step, the selections gathered so far, the cursor of
/// whichever option list is on screen, and the text-entry flag.
#[derive(Debug, PartialEq, Eq)]
pub struct AppState {
    pub step: AppStep,
    pub download_type: Option<usize>,
    pub url: String,
    pub format: Option<usize>,
    pub status: String,
    pub selected: usize,
    pub input_mode: bool,
}

/// Status of the one in-flight download attempt, written by the worker and
/// read by the interaction loop (which shares it behind a lock).
#[derive(Debug, PartialEq, Eq)]
pub struct DownloadProgress {
    pub active: bool,
    pub message: String,
    pub spinner_index: usize,
}

impl View for AppState {
    type V = AppModel;

    open spec fn view(&self) -> AppModel {
        AppModel {
            step: self.step,
            download_type: self.download_type,
            url: self.url@,
            format: self.format,
            status: self.status@,
            selected: self.selected,
            input_mode: self.input_mode,
        }
    }
}

impl View for DownloadProgress {
    type V = ProgressModel;

    open spec fn view(&self) -> ProgressModel {
        ProgressModel {
            active: self.active,
            message: self.message@,
            spinner_index: self.spinner_index,
        }
    }
}

/// How many selectable formats each download type offers: 3 video
/// containers, 5 audio codecs, 2 subtitle language scopes.
pub open spec fn format_count(download_type: usize) -> usize {
    if download_type == 0 {
        3
    } else if download_type == 1 {
        5
    } else if download_type == 2 {
        2
    } else {
        0
    }
}

/// The number of selectable items on the current screen; the single source
/// of truth for navigation bounds.
pub open spec fn option_count_of(m: AppModel) -> usize {
    match m.step {
        AppStep::SelectType => 3,
        AppStep::SelectFormat => match m.download_type {
            Some(t) => format_count(t),
            None => 0,
        },
        AppStep::Confirm => 2,
        _ => 0,
    }
}

/// The status line shown before any selection has been made.
pub open spec fn initial_status() -> Seq<char> {
    "Select download type using arrow keys and Enter"@
}

/// The wizard as it stands at process start and after every full reset.
pub open spec fn initial_model() -> AppModel {
    AppModel {
        step: AppStep::SelectType,
        download_type: None,
        url: Seq::empty(),
        format: None,
        status: initial_status(),
        selected: 0,
        input_mode: false,
    }
}

/// An idle progress record: no download in flight, no message, spinner at
/// its first frame.
pub open spec fn initial_progress() -> ProgressModel {
    ProgressModel { active: false, message: Seq::empty(), spinner_index: 0 }
}

impl AppModel {
    /// Well-formedness of the wizard state. Constructors establish it and
    /// every transition preserves it:
    /// - the text-entry flag is set exactly while the URL screen is current;
    /// - a recorded download type is one of the three offered;
    /// - a recorded format index lies within its type's format table;
    /// - the cursor stays below the current option count whenever there are
    ///   options to point at;
    /// - each step past the first only holds selections the earlier steps
    ///   recorded (type, then a non-empty URL, then a format).
    pub open spec fn wf(self) -> bool {
        &&& (self.input_mode <==> self.step is EnterUrl)
        &&& (self.download_type matches Some(t) ==> t < 3)
        &&& (self.format matches Some(f) ==> (self.download_type matches Some(t) && f
            < format_count(t)))
        &&& (option_count_of(self) > 0 ==> self.selected < option_count_of(self))
        &&& (match self.step {
            AppStep::SelectType => self.download_type is None && self.format is None,
            AppStep::EnterUrl => self.download_type is Some && self.format is None,
            AppStep::SelectFormat => self.download_type is Some && self.format is None
                && self.url.len() > 0,
            AppStep::Confirm | AppStep::Downloading => self.download_type is Some
                && self.format is Some && self.url.len() > 0,
            AppStep::Complete => true,
        })
    }
}

impl ProgressModel {
    /// Well-formedness of the progress record: the spinner index stays
    /// within the eight animation frames.
    pub open spec fn wf(self) -> bool {
        self.spinner_index < 8
    }
}

impl AppState {
    /// A fresh wizard at the first step with nothing selected.
    pub fn new() -> (s: Self)
        ensures
            s@ == initial_model(),
            s@.wf(),
    {
        let s = AppState {
            step: AppStep::SelectType,
            download_type: None,
            url: String::new(),
            format: None,
            status: "Select download type using arrow keys and Enter".to_owned(),
            selected: 0,
            input_mode: false,
        };
        proof {
            assert(s@ =~= initial_model());
        }
        s
    }

    /// Returns the whole wizard to its initial state: all selections
    /// cleared, cursor at the top, back on the first step.
    pub fn reset(&mut self)
        ensures
            final(self)@ == initial_model(),
            final(self)@.wf(),
    {
        *self = Self::new();
    }

    /// The number of selectable items for the current step: 3 download
    /// types; 3/5/2 formats keyed by the chosen type (0 while none is
    /// chosen); 2 confirmation choices; 0 on every other screen.
    pub fn get_current_options_len(&self) -> (n: usize)
        ensures
            n == option_count_of(self@),
    {
        match self.step {
            AppStep::SelectType => 3,
            AppStep::SelectFormat => {
                match self.download_type {
                    Some(0) => 3,
                    Some(1) => 5,
                    Some(2) => 2,
                    _ => 0,
                }
            },
            AppStep::Confirm => 2,
            _ => 0,
        }
    }
}

impl DownloadProgress {
    /// A fresh, idle progress record.
    pub fn new() -> (p: Self)
        ensures
            p@ == initial_progress(),
            p@.wf(),
    {
        let p = DownloadProgress { active: false, message: String::new(), spinner_index: 0 };
        proof {
            assert(p@ =~= initial_progress());
        }
        p
    }

    /// Returns the record to its idle state, ready for a new attempt.
    pub fn reset(&mut self)
        ensures
            final(self)@ == initial_progress(),
            final(self)@.wf(),
    {
        *self = Self::new();
    }
}

} // verus!
