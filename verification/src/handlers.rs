//! Input handling: the key events the wizard understands, the cursor
//! navigation with wraparound, and the step-advance protocol that records
//! selections, launches the download, and resets the wizard.

use vstd::prelude::*;
use vstd::arithmetic::div_mod::{lemma_small_mod, lemma_mod_self_0, lemma_mod_multiples_vanish};
use crate::app::{
    AppState, AppStep, AppModel, DownloadProgress, ProgressModel, option_count_of, initial_model,
    initial_progress,
};

verus! {

/// The key events the interaction loop dispatches; every other key is
/// `Other` and is ignored.
#[derive(Clone, Copy, Debug, PartialEq, Eq)]
pub enum KeyInput {
    Esc,
    Enter,
    Backspace,
    Up,
    Down,
    Char(char),
    Other,
}

/// What the caller of the dispatcher must do next: end the loop, spawn the
/// download worker for the recorded selections, or carry on.
#[derive(Clone, Copy, Debug, PartialEq, Eq)]
pub enum KeyAction {
    Quit,
    Launch,
    Stay,
}

/// Relies on `String::push`: appends the given character to the end of
/// the string.
pub assume_specification[ String::push ](s: &mut String, c: char)
    ensures
        final(s)@ == old(s)@.push(c),
;

/// Relies on `String::pop`: removes and returns the last character, or
/// returns `None` and leaves the string unchanged when it is empty.
pub assume_specification[ String::pop ](s: &mut String) -> (r: Option<char>)
    ensures
        old(s)@.len() == 0 ==> r is None && final(s)@ == old(s)@,
        old(s)@.len() > 0 ==> r == Some(old(s)@.last()) && final(s)@ == old(s)@.drop_last(),
;

/// The status line set when a download type is recorded.
pub open spec fn type_selected_status(download_type: usize) -> Seq<char> {
    if download_type == 0 {
        "Video selected. Enter YouTube URL"@
    } else if download_type == 1 {
        "Audio selected. Enter YouTube URL"@
    } else {
        "Subtitles selected. Enter YouTube URL"@
    }
}

/// The status line set when the URL is accepted.
pub open spec fn select_format_status() -> Seq<char> {
    "Select output format using arrow keys"@
}

/// The status line set when a format is recorded.
pub open spec fn confirm_status() -> Seq<char> {
    "Press Enter to start download, or 'q' to cancel"@
}

/// The status line set when a download is launched.
pub open spec fn downloading_status() -> Seq<char> {
    "Downloading... Please wait"@
}

/// The progress message posted at launch, before the worker resolves the
/// format-specific one.
pub open spec fn initializing_message() -> Seq<char> {
    "Initializing download..."@
}

/// One cursor step towards lower indices, wrapping to the last option;
/// a no-op on screens without options.
pub open spec fn move_up_model(m: AppModel) -> AppModel {
    let n = option_count_of(m);
    if n == 0 {
        m
    } else if m.selected > 0 {
        AppModel { selected: (m.selected - 1) as usize, ..m }
    } else {
        AppModel { selected: (n - 1) as usize, ..m }
    }
}

/// One cursor step towards higher indices, wrapping to the first option;
/// a no-op on screens without options.
pub open spec fn move_down_model(m: AppModel) -> AppModel {
    let n = option_count_of(m);
    if n == 0 {
        m
    } else if m.selected + 1 < n {
        AppModel { selected: (m.selected + 1) as usize, ..m }
    } else {
        AppModel { selected: 0usize, ..m }
    }
}

/// The step-advance protocol, one case per step:
/// - `SelectType` records the cursor as the download type and opens the
///   URL screen in text-entry mode;
/// - `EnterUrl` advances to the format screen only once the URL is
///   non-empty, clearing text-entry mode and resetting the cursor;
/// - `SelectFormat` records the cursor as the format and moves to the
///   confirmation screen with the cursor reset;
/// - `Confirm` launches the download on the first choice and fully resets
///   the wizard on any other;
/// - `Downloading` and `Complete` ignore the event.
pub open spec fn handle_enter_model(m: AppModel) -> AppModel {
    match m.step {
        AppStep::SelectType => AppModel {
            download_type: Some(m.selected),
            status: type_selected_status(m.selected),
            step: AppStep::EnterUrl,
            input_mode: true,
            ..m
        },
        AppStep::EnterUrl => {
            if m.url.len() > 0 {
                AppModel {
                    input_mode: false,
                    status: select_format_status(),
                    step: AppStep::SelectFormat,
                    selected: 0usize,
                    ..m
                }
            } else {
                m
            }
        },
        AppStep::SelectFormat => AppModel {
            format: Some(m.selected),
            status: confirm_status(),
            step: AppStep::Confirm,
            selected: 0usize,
            ..m
        },
        AppStep::Confirm => {
            if m.selected == 0 {
                AppModel { step: AppStep::Downloading, status: downloading_status(), ..m }
            } else {
                initial_model()
            }
        },
        _ => m,
    }
}

/// Whether the step-advance protocol launches a download from this state.
pub open spec fn enter_launches(m: AppModel) -> bool {
    m.step is Confirm && m.selected == 0
}

/// What the step-advance protocol does to the progress record: marks it
/// active with the launch message when a download is launched, returns it
/// to idle when the wizard is cancelled, and leaves it alone otherwise.
pub open spec fn enter_progress_model(m: AppModel, p: ProgressModel) -> ProgressModel {
    if m.step is Confirm {
        if m.selected == 0 {
            ProgressModel { active: true, message: initializing_message(), ..p }
        } else {
            initial_progress()
        }
    } else {
        p
    }
}

/// The whole key dispatch: the wizard state, the progress record and the
/// caller's next action, as a function of the incoming key.
pub open spec fn dispatch_model(m: AppModel, p: ProgressModel, key: KeyInput) -> (AppModel,
    ProgressModel,
    KeyAction,
) {
    match key {
        KeyInput::Esc => (m, p, KeyAction::Quit),
        KeyInput::Char(c) => {
            if c == 'q' && !m.input_mode {
                (m, p, KeyAction::Quit)
            } else if m.input_mode && m.step is EnterUrl {
                ((AppModel { url: m.url.push(c), ..m }), p, KeyAction::Stay)
            } else if c == 'r' && m.step is Complete {
                (initial_model(), initial_progress(), KeyAction::Stay)
            } else {
                (m, p, KeyAction::Stay)
            }
        },
        KeyInput::Backspace => {
            if m.input_mode && m.step is EnterUrl && m.url.len() > 0 {
                ((AppModel { url: m.url.drop_last(), ..m }), p, KeyAction::Stay)
            } else {
                (m, p, KeyAction::Stay)
            }
        },
        KeyInput::Enter => (
            handle_enter_model(m),
            enter_progress_model(m, p),
            if enter_launches(m) {
                KeyAction::Launch
            } else {
                KeyAction::Stay
            },
        ),
        KeyInput::Up => {
            if !m.input_mode {
                (move_up_model(m), p, KeyAction::Stay)
            } else {
                (m, p, KeyAction::Stay)
            }
        },
        KeyInput::Down => {
            if !m.input_mode {
                (move_down_model(m), p, KeyAction::Stay)
            } else {
                (m, p, KeyAction::Stay)
            }
        },
        KeyInput::Other => (m, p, KeyAction::Stay),
    }
}

impl AppState {
    /// Appends one character to the URL being entered.
    pub fn push_char(&mut self, c: char)
        requires
            old(self)@.wf(),
            old(self)@.step is EnterUrl,
        ensures
            final(self)@ == (AppModel { url: old(self)@.url.push(c), ..old(self)@ }),
            final(self)@.wf(),
    {
        self.url.push(c);
        proof {
            assert(self@ =~= (AppModel { url: old(self)@.url.push(c), ..old(self)@ }));
        }
    }

    /// Removes the last character of the URL being entered, if any.
    pub fn pop_char(&mut self)
        requires
            old(self)@.wf(),
            old(self)@.step is EnterUrl,
        ensures
            final(self)@ == (AppModel {
                url: if old(self)@.url.len() > 0 {
                    old(self)@.url.drop_last()
                } else {
                    old(self)@.url
                },
                ..old(self)@
            }),
            final(self)@.wf(),
    {
        let _ = self.url.pop();
        proof {
            assert(self@ =~= (AppModel {
                url: if old(self)@.url.len() > 0 {
                    old(self)@.url.drop_last()
                } else {
                    old(self)@.url
                },
                ..old(self)@
            }));
        }
    }
}

/// Moves the cursor one option up, wrapping past the first option to the
/// last; does nothing on screens without options.
pub fn move_selection_up(app: &mut AppState)
    requires
        old(app)@.wf(),
    ensures
        final(app)@ == move_up_model(old(app)@),
        final(app)@.wf(),
{
    let options_len = app.get_current_options_len();
    if options_len > 0 {
        if app.selected > 0 {
            app.selected = app.selected - 1;
        } else {
            app.selected = options_len - 1;
        }
    }
}

/// Moves the cursor one option down, wrapping past the last option to the
/// first; does nothing on screens without options.
pub fn move_selection_down(app: &mut AppState)
    requires
        old(app)@.wf(),
    ensures
        final(app)@ == move_down_model(old(app)@),
        final(app)@.wf(),
{
    let options_len = app.get_current_options_len();
    if options_len > 0 {
        if app.selected < options_len - 1 {
            app.selected = app.selected + 1;
        } else {
            app.selected = 0;
        }
    }
}

/// Law: cursor navigation wraps modularly. One step down lands on the
/// next index modulo the option count and one step up on the previous, so
/// a step past either boundary wraps exactly once, never skips or repeats
/// an index, stays in bounds, and touches nothing but the cursor.
pub proof fn lemma_navigation_wraps(m: AppModel)
    requires
        m.wf(),
        option_count_of(m) > 0,
    ensures
        move_down_model(m).selected == (m.selected + 1) % (option_count_of(m) as int),
        move_up_model(m).selected == (m.selected + option_count_of(m) - 1) % (option_count_of(
            m,
        ) as int),
        move_down_model(m).selected < option_count_of(m),
        move_up_model(m).selected < option_count_of(m),
        (AppModel { selected: m.selected, ..move_down_model(m) }) == m,
        (AppModel { selected: m.selected, ..move_up_model(m) }) == m,
{
    let n = option_count_of(m) as int;
    let s = m.selected as int;
    if s + 1 < n {
        lemma_small_mod((s + 1) as nat, n as nat);
    } else {
        lemma_mod_self_0(n);
    }
    if s > 0 {
        lemma_mod_multiples_vanish(1, s - 1, n);
        lemma_small_mod((s - 1) as nat, n as nat);
    } else {
        lemma_small_mod((n - 1) as nat, n as nat);
    }
    assert((AppModel { selected: m.selected, ..move_down_model(m) }) =~= m);
    assert((AppModel { selected: m.selected, ..move_up_model(m) }) =~= m);
}

/// Law: one step down followed by one step up restores the cursor, and
/// so does one step up followed by one step down — navigation loses
/// nothing.
pub proof fn lemma_navigation_round_trip(m: AppModel)
    requires
        m.wf(),
        option_count_of(m) > 0,
    ensures
        move_up_model(move_down_model(m)) == m,
        move_down_model(move_up_model(m)) == m,
{
    assert(move_up_model(move_down_model(m)) =~= m);
    assert(move_down_model(move_up_model(m)) =~= m);
}

/// Marks the attempt active, posts the launch message, and moves the
/// wizard onto the downloading screen. The caller is expected to spawn
/// the worker for the recorded selections.
pub fn start_download(app: &mut AppState, progress: &mut DownloadProgress)
    requires
        old(app)@.wf(),
        old(app)@.step is Confirm,
    ensures
        final(app)@ == (AppModel {
            step: AppStep::Downloading,
            status: downloading_status(),
            ..old(app)@
        }),
        final(progress)@ == (ProgressModel {
            active: true,
            message: initializing_message(),
            spinner_index: old(progress)@.spinner_index,
        }),
        final(app)@.wf(),
        old(progress)@.wf() ==> final(progress)@.wf(),
{
    app.step = AppStep::Downloading;
    app.status = "Downloading... Please wait".to_owned();
    progress.active = true;
    progress.message = "Initializing download...".to_owned();
    proof {
        assert(app@ =~= (AppModel {
            step: AppStep::Downloading,
            status: downloading_status(),
            ..old(app)@
        }));
        assert(progress@ =~= (ProgressModel {
            active: true,
            message: initializing_message(),
            spinner_index: old(progress)@.spinner_index,
        }));
    }
}

/// The step-advance protocol (see [`handle_enter_model`]). Returns whether
/// a download was launched, in which case the caller spawns the worker.
pub fn handle_enter(app: &mut AppState, progress: &mut DownloadProgress) -> (launched: bool)
    requires
        old(app)@.wf(),
    ensures
        final(app)@ == handle_enter_model(old(app)@),
        final(progress)@ == enter_progress_model(old(app)@, old(progress)@),
        launched == enter_launches(old(app)@),
        final(app)@.wf(),
        old(progress)@.wf() ==> final(progress)@.wf(),
{
    match app.step {
        AppStep::SelectType => {
            app.download_type = Some(app.selected);
            app.status = if app.selected == 0 {
                "Video selected. Enter YouTube URL".to_owned()
            } else if app.selected == 1 {
                "Audio selected. Enter YouTube URL".to_owned()
            } else {
                "Subtitles selected. Enter YouTube URL".to_owned()
            };
            app.step = AppStep::EnterUrl;
            app.input_mode = true;
            proof {
                assert(app@ =~= handle_enter_model(old(app)@));
            }
            false
        },
        AppStep::EnterUrl => {
            if !app.url.as_str().is_empty() {
                app.input_mode = false;
                app.status = "Select output format using arrow keys".to_owned();
                app.step = AppStep::SelectFormat;
                app.selected = 0;
            }
            proof {
                assert(app@ =~= handle_enter_model(old(app)@));
            }
            false
        },
        AppStep::SelectFormat => {
            app.format = Some(app.selected);
            app.status = "Press Enter to start download, or 'q' to cancel".to_owned();
            app.step = AppStep::Confirm;
            app.selected = 0;
            proof {
                assert(app@ =~= handle_enter_model(old(app)@));
            }
            false
        },
        AppStep::Confirm => {
            if app.selected == 0 {
                start_download(app, progress);
                true
            } else {
                app.reset();
                progress.reset();
                false
            }
        },
        _ => {
            false
        },
    }
}

/// Dispatches one key event (see [`dispatch_model`]): quit and restart
/// keys, text entry on the URL screen, cursor navigation while not in
/// text-entry mode, and the step-advance protocol on Enter.
pub fn handle_key_event(app: &mut AppState, progress: &mut DownloadProgress, key: KeyInput) -> (r:
    KeyAction)
    requires
        old(app)@.wf(),
    ensures
        final(app)@ == dispatch_model(old(app)@, old(progress)@, key).0,
        final(progress)@ == dispatch_model(old(app)@, old(progress)@, key).1,
        r == dispatch_model(old(app)@, old(progress)@, key).2,
        final(app)@.wf(),
        old(progress)@.wf() ==> final(progress)@.wf(),
{
    match key {
        KeyInput::Esc => KeyAction::Quit,
        KeyInput::Char(c) => {
            if c == 'q' && !app.input_mode {
                KeyAction::Quit
            } else if app.input_mode && app.step == AppStep::EnterUrl {
                app.push_char(c);
                KeyAction::Stay
            } else if c == 'r' && app.step == AppStep::Complete {
                app.reset();
                progress.reset();
                KeyAction::Stay
            } else {
                KeyAction::Stay
            }
        },
        KeyInput::Backspace => {
            if app.input_mode && app.step == AppStep::EnterUrl {
                app.pop_char();
            }
            KeyAction::Stay
        },
        KeyInput::Enter => {
            let launched = handle_enter(app, progress);
            if launched {
                KeyAction::Launch
            } else {
                KeyAction::Stay
            }
        },
        KeyInput::Up => {
            if !app.input_mode {
                move_selection_up(app);
            }
            KeyAction::Stay
        },
        KeyInput::Down => {
            if !app.input_mode {
                move_selection_down(app);
            }
            KeyAction::Stay
        },
        KeyInput::Other => KeyAction::Stay,
    }
}

/// Law: advancing from the type screen records the cursor, whatever of
/// the three types it points at, as the download type, and opens the URL
/// screen in text-entry mode with everything else untouched.
pub proof fn lemma_select_type_records_cursor(m: AppModel)
    requires
        m.wf(),
        m.step is SelectType,
    ensures
        m.selected < 3,
        handle_enter_model(m).download_type == Some(m.selected),
        handle_enter_model(m).step is EnterUrl,
        handle_enter_model(m).input_mode,
        handle_enter_model(m).url == m.url,
        handle_enter_model(m).format == m.format,
        handle_enter_model(m).selected == m.selected,
{
}

/// Law: advancing from the URL screen with an empty URL changes nothing
/// at all; with a non-empty URL it moves to the format screen, leaves
/// text-entry mode, and resets the cursor, keeping the URL and the
/// recorded type.
pub proof fn lemma_url_gate(m: AppModel)
    requires
        m.step is EnterUrl,
    ensures
        m.url.len() == 0 ==> handle_enter_model(m) == m,
        m.url.len() > 0 ==> {
            &&& handle_enter_model(m).step is SelectFormat
            &&& !handle_enter_model(m).input_mode
            &&& handle_enter_model(m).selected == 0
            &&& handle_enter_model(m).url == m.url
            &&& handle_enter_model(m).download_type == m.download_type
        },
{
}

/// Law: declining at the confirmation screen is a full reset — every
/// selection cleared, the cursor back at the top, the wizard back on the
/// type screen, exactly as freshly constructed.
pub proof fn lemma_cancel_fully_resets(m: AppModel)
    requires
        m.step is Confirm,
        m.selected != 0,
    ensures
        handle_enter_model(m) == initial_model(),
{
}

/// Law: restarting from the completion screen restores both the wizard
/// and the progress record to exactly their freshly constructed initial
/// values.
pub proof fn lemma_restart_restores_initial(m: AppModel, p: ProgressModel)
    requires
        m.wf(),
        m.step is Complete,
    ensures
        dispatch_model(m, p, KeyInput::Char('r')).0 == initial_model(),
        dispatch_model(m, p, KeyInput::Char('r')).1 == initial_progress(),
        dispatch_model(m, p, KeyInput::Char('r')).2 == KeyAction::Stay,
{
}

} // verus!
