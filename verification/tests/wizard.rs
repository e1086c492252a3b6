use ytwizard::app::{AppState, AppStep, DownloadProgress};
use ytwizard::download::{
    complete_text, failed_text, no_subtitles_text, plan_invocation, stderr_has_marker,
    update_progress_with_result, InvocationOutcome,
};
use ytwizard::handlers::{
    handle_enter, handle_key_event, move_selection_down, move_selection_up, KeyAction, KeyInput,
};
use ytwizard::poll::{check_download_status, update_spinner};
use ytwizard::ui::{get_format_string, get_url_display};

/// Drives a fresh wizard to the URL screen with the given type selected.
fn wizard_at_url(download_type: usize) -> (AppState, DownloadProgress) {
    let mut app = AppState::new();
    let mut progress = DownloadProgress::new();
    for _ in 0..download_type {
        move_selection_down(&mut app);
    }
    handle_enter(&mut app, &mut progress);
    (app, progress)
}

/// Drives a fresh wizard to the confirmation screen with the given
/// selections recorded.
fn wizard_at_confirm(download_type: usize, url: &str, format: usize) -> (AppState, DownloadProgress) {
    let (mut app, mut progress) = wizard_at_url(download_type);
    for c in url.chars() {
        app.push_char(c);
    }
    handle_enter(&mut app, &mut progress);
    for _ in 0..format {
        move_selection_down(&mut app);
    }
    handle_enter(&mut app, &mut progress);
    (app, progress)
}

#[test]
fn option_count_matches_table() {
    let mut app = AppState::new();
    assert_eq!(app.get_current_options_len(), 3);

    let (video, _) = wizard_at_url(0);
    assert_eq!(video.get_current_options_len(), 0);

    let (mut video, mut p) = wizard_at_url(0);
    video.push_char('u');
    handle_enter(&mut video, &mut p);
    assert_eq!(video.get_current_options_len(), 3);

    let (mut audio, mut p) = wizard_at_url(1);
    audio.push_char('u');
    handle_enter(&mut audio, &mut p);
    assert_eq!(audio.get_current_options_len(), 5);

    let (mut subs, mut p) = wizard_at_url(2);
    subs.push_char('u');
    handle_enter(&mut subs, &mut p);
    assert_eq!(subs.get_current_options_len(), 2);

    let (confirm, _) = wizard_at_confirm(0, "u", 0);
    assert_eq!(confirm.get_current_options_len(), 2);

    app.step = AppStep::Downloading;
    assert_eq!(app.get_current_options_len(), 0);
    app.step = AppStep::Complete;
    assert_eq!(app.get_current_options_len(), 0);
}

#[test]
fn navigation_wraps_exactly_once() {
    let mut app = AppState::new();
    assert_eq!(app.selected, 0);
    move_selection_up(&mut app);
    assert_eq!(app.selected, 2);
    move_selection_down(&mut app);
    assert_eq!(app.selected, 0);
    move_selection_down(&mut app);
    assert_eq!(app.selected, 1);
    move_selection_down(&mut app);
    assert_eq!(app.selected, 2);
    move_selection_down(&mut app);
    assert_eq!(app.selected, 0);
}

#[test]
fn navigation_ignored_without_options() {
    let (mut app, _) = wizard_at_url(0);
    let before = app.selected;
    move_selection_up(&mut app);
    assert_eq!(app.selected, before);
    move_selection_down(&mut app);
    assert_eq!(app.selected, before);
}

#[test]
fn select_type_records_cursor() {
    for k in 0..3usize {
        let (app, _) = wizard_at_url(k);
        assert_eq!(app.download_type, Some(k));
        assert_eq!(app.step, AppStep::EnterUrl);
        assert!(app.input_mode);
    }
}

#[test]
fn select_type_status_names_the_type() {
    assert_eq!(wizard_at_url(0).0.status, "Video selected. Enter YouTube URL");
    assert_eq!(wizard_at_url(1).0.status, "Audio selected. Enter YouTube URL");
    assert_eq!(wizard_at_url(2).0.status, "Subtitles selected. Enter YouTube URL");
}

#[test]
fn empty_url_is_a_noop() {
    let (mut app, mut progress) = wizard_at_url(0);
    handle_enter(&mut app, &mut progress);
    assert_eq!(app.step, AppStep::EnterUrl);
    assert!(app.input_mode);
    handle_enter(&mut app, &mut progress);
    assert_eq!(app.step, AppStep::EnterUrl);
}

#[test]
fn nonempty_url_advances_to_format() {
    let (mut app, mut progress) = wizard_at_url(0);
    app.push_char('x');
    handle_enter(&mut app, &mut progress);
    assert_eq!(app.step, AppStep::SelectFormat);
    assert!(!app.input_mode);
    assert_eq!(app.selected, 0);
    assert_eq!(app.url, "x");
}

#[test]
fn url_editing_pushes_and_pops() {
    let (mut app, _) = wizard_at_url(1);
    app.push_char('a');
    app.push_char('b');
    assert_eq!(app.url, "ab");
    app.pop_char();
    assert_eq!(app.url, "a");
    app.pop_char();
    assert_eq!(app.url, "");
    app.pop_char();
    assert_eq!(app.url, "");
}

#[test]
fn key_dispatch_edits_url_only_in_input_mode() {
    let mut app = AppState::new();
    let mut progress = DownloadProgress::new();
    handle_key_event(&mut app, &mut progress, KeyInput::Char('a'));
    assert_eq!(app.url, "");
    handle_key_event(&mut app, &mut progress, KeyInput::Enter);
    handle_key_event(&mut app, &mut progress, KeyInput::Char('q'));
    handle_key_event(&mut app, &mut progress, KeyInput::Char('r'));
    assert_eq!(app.url, "qr");
    handle_key_event(&mut app, &mut progress, KeyInput::Backspace);
    assert_eq!(app.url, "q");
    handle_key_event(&mut app, &mut progress, KeyInput::Up);
    assert_eq!(app.selected, 0);
}

#[test]
fn quit_keys() {
    let mut app = AppState::new();
    let mut progress = DownloadProgress::new();
    assert_eq!(handle_key_event(&mut app, &mut progress, KeyInput::Esc), KeyAction::Quit);
    assert_eq!(handle_key_event(&mut app, &mut progress, KeyInput::Char('q')), KeyAction::Quit);
    let (mut url_app, mut p) = wizard_at_url(0);
    assert_eq!(handle_key_event(&mut url_app, &mut p, KeyInput::Esc), KeyAction::Quit);
    assert_eq!(handle_key_event(&mut url_app, &mut p, KeyInput::Char('q')), KeyAction::Stay);
    assert_eq!(url_app.url, "q");
}

#[test]
fn format_step_records_cursor_and_resets() {
    let (app, _) = wizard_at_confirm(1, "http://x", 3);
    assert_eq!(app.step, AppStep::Confirm);
    assert_eq!(app.format, Some(3));
    assert_eq!(app.selected, 0);
    assert_eq!(app.status, "Press Enter to start download, or 'q' to cancel");
}

#[test]
fn cancel_at_confirm_fully_resets() {
    let (mut app, mut progress) = wizard_at_confirm(0, "http://x", 1);
    move_selection_down(&mut app);
    assert_eq!(app.selected, 1);
    let launched = handle_enter(&mut app, &mut progress);
    assert!(!launched);
    assert_eq!(app, AppState::new());
    assert_eq!(progress, DownloadProgress::new());
}

#[test]
fn launch_at_confirm_starts_download() {
    let (mut app, mut progress) = wizard_at_confirm(1, "http://x", 1);
    let launched = handle_enter(&mut app, &mut progress);
    assert!(launched);
    assert_eq!(app.step, AppStep::Downloading);
    assert_eq!(app.status, "Downloading... Please wait");
    assert!(progress.active);
    assert_eq!(progress.message, "Initializing download...");
}

#[test]
fn completion_is_consumed_exactly_once() {
    let (mut app, mut progress) = wizard_at_confirm(0, "http://x", 0);
    handle_enter(&mut app, &mut progress);
    progress.active = false;
    progress.message = complete_text();
    check_download_status(&mut app, &progress);
    assert_eq!(app.step, AppStep::Complete);
    assert_eq!(app.status, "Download complete! Press 'r' to restart or 'q' to quit");
    app.status = String::from("untouched");
    check_download_status(&mut app, &progress);
    check_download_status(&mut app, &progress);
    assert_eq!(app.step, AppStep::Complete);
    assert_eq!(app.status, "untouched");
}

#[test]
fn completion_waits_for_inactive_and_message() {
    let (mut app, mut progress) = wizard_at_confirm(0, "http://x", 0);
    handle_enter(&mut app, &mut progress);
    check_download_status(&mut app, &progress);
    assert_eq!(app.step, AppStep::Downloading);
    progress.active = false;
    progress.message = String::new();
    check_download_status(&mut app, &progress);
    assert_eq!(app.step, AppStep::Downloading);
}

#[test]
fn spinner_advances_only_while_active() {
    let (mut app, mut progress) = wizard_at_confirm(0, "http://x", 0);
    handle_enter(&mut app, &mut progress);
    assert_eq!(progress.spinner_index, 0);
    for expected in [1, 2, 3, 4, 5, 6, 7, 0, 1] {
        update_spinner(&app, &mut progress);
        assert_eq!(progress.spinner_index, expected);
    }
    progress.active = false;
    update_spinner(&app, &mut progress);
    assert_eq!(progress.spinner_index, 1);
    progress.active = true;
    app.step = AppStep::Complete;
    update_spinner(&app, &mut progress);
    assert_eq!(progress.spinner_index, 1);
}

#[test]
fn marker_detection() {
    assert!(stderr_has_marker(&b"no subtitles".to_vec()));
    assert!(stderr_has_marker(&b"ERROR: No subtitles available for this video".to_vec()));
    assert!(stderr_has_marker(&b"xx no subtitles yy".to_vec()));
    assert!(!stderr_has_marker(&b"NO SUBTITLES".to_vec()));
    assert!(!stderr_has_marker(&b"".to_vec()));
    assert!(!stderr_has_marker(&b"no subtitle".to_vec()));
}

#[test]
fn outcome_classification() {
    let mut p = DownloadProgress::new();

    update_progress_with_result(&InvocationOutcome::StartFailed, 0, &mut p);
    assert!(!p.active);
    assert_eq!(p.message, failed_text());

    let ok = InvocationOutcome::Exited { success: true, stderr: Vec::new() };
    update_progress_with_result(&ok, 0, &mut p);
    assert_eq!(p.message, "Download complete! Press 'r' to restart or 'q' to quit");

    let fail_plain = InvocationOutcome::Exited { success: false, stderr: b"boom".to_vec() };
    update_progress_with_result(&fail_plain, 1, &mut p);
    assert_eq!(p.message, "Download failed! Press 'r' to restart or 'q' to quit");

    let fail_marked = InvocationOutcome::Exited {
        success: false,
        stderr: b"WARNING: no subtitles found".to_vec(),
    };
    update_progress_with_result(&fail_marked, 0, &mut p);
    assert_eq!(p.message, no_subtitles_text());

    let subs_ok_marked = InvocationOutcome::Exited {
        success: true,
        stderr: b"There are no subtitles for the requested languages".to_vec(),
    };
    update_progress_with_result(&subs_ok_marked, 2, &mut p);
    assert_eq!(p.message, "No subtitles available! Press 'r' to restart or 'q' to quit");

    let media_ok_marked = InvocationOutcome::Exited {
        success: true,
        stderr: b"note: no subtitles embedded".to_vec(),
    };
    update_progress_with_result(&media_ok_marked, 0, &mut p);
    assert_eq!(p.message, complete_text());
}

#[test]
fn plan_for_each_video_container() {
    let mut p = DownloadProgress::new();
    let plan = plan_invocation(0, 0, &mut p);
    assert_eq!(plan.format_selector, "bestvideo[ext=mp4]+bestaudio[ext=m4a]/best[ext=mp4]/best");
    assert!(!plan.extract_audio);
    assert!(!plan.skip_download);
    assert_eq!(p.message, "Downloading video in mp4 format...");

    let plan = plan_invocation(0, 1, &mut p);
    assert_eq!(plan.format_selector, "bestvideo[ext=webm]+bestaudio/best[ext=mkv]/best");
    assert_eq!(p.message, "Downloading video in mkv format...");

    let plan = plan_invocation(0, 2, &mut p);
    assert_eq!(plan.format_selector, "bestvideo[ext=webm]+bestaudio/best[ext=webm]/best");
    assert_eq!(p.message, "Downloading video in webm format...");
}

#[test]
fn plan_for_each_audio_codec() {
    let mut p = DownloadProgress::new();
    let codecs = ["flac", "mp3", "wav", "aac", "m4a"];
    for (i, codec) in codecs.iter().enumerate() {
        let plan = plan_invocation(1, i, &mut p);
        assert_eq!(plan.format_selector, "bestaudio/best");
        assert!(plan.extract_audio);
        assert_eq!(plan.audio_format, *codec);
        assert!(!plan.skip_download);
        assert_eq!(p.message, format!("Downloading audio in {} format...", codec));
    }
}

#[test]
fn plan_for_subtitles() {
    let mut p = DownloadProgress::new();
    let plan = plan_invocation(2, 0, &mut p);
    assert!(plan.skip_download);
    assert!(!plan.extract_audio);
    assert_eq!(plan.sub_langs, "en");
    assert_eq!(plan.sub_format, "srt");
    assert_eq!(p.message, "Downloading subtitles...");

    let plan = plan_invocation(2, 1, &mut p);
    assert_eq!(plan.sub_langs, "all");
    assert_eq!(plan.sub_format, "srt");
}

#[test]
fn scenario_audio_mp3_success() {
    let mut app = AppState::new();
    let mut progress = DownloadProgress::new();
    handle_key_event(&mut app, &mut progress, KeyInput::Down);
    handle_key_event(&mut app, &mut progress, KeyInput::Enter);
    for c in "http://x".chars() {
        handle_key_event(&mut app, &mut progress, KeyInput::Char(c));
    }
    handle_key_event(&mut app, &mut progress, KeyInput::Enter);
    handle_key_event(&mut app, &mut progress, KeyInput::Down);
    handle_key_event(&mut app, &mut progress, KeyInput::Enter);
    assert_eq!(app.step, AppStep::Confirm);
    let action = handle_key_event(&mut app, &mut progress, KeyInput::Enter);
    assert_eq!(action, KeyAction::Launch);
    assert_eq!(app.download_type, Some(1));
    assert_eq!(app.format, Some(1));
    assert_eq!(app.url, "http://x");

    let plan = plan_invocation(app.download_type.unwrap(), app.format.unwrap(), &mut progress);
    assert_eq!(progress.message, "Downloading audio in mp3 format...");
    assert_eq!(plan.audio_format, "mp3");

    let outcome = InvocationOutcome::Exited { success: true, stderr: Vec::new() };
    update_progress_with_result(&outcome, 1, &mut progress);
    assert_eq!(progress.message, "Download complete! Press 'r' to restart or 'q' to quit");

    check_download_status(&mut app, &progress);
    assert_eq!(app.step, AppStep::Complete);
    assert_eq!(app.status, "Download complete! Press 'r' to restart or 'q' to quit");
}

#[test]
fn scenario_subtitles_unavailable() {
    let (mut app, mut progress) = wizard_at_confirm(2, "http://x", 0);
    let launched = handle_enter(&mut app, &mut progress);
    assert!(launched);
    plan_invocation(2, 0, &mut progress);
    let outcome = InvocationOutcome::Exited {
        success: false,
        stderr: b"video: No subtitles are available".to_vec(),
    };
    update_progress_with_result(&outcome, 2, &mut progress);
    assert_eq!(progress.message, "No subtitles available! Press 'r' to restart or 'q' to quit");
    check_download_status(&mut app, &progress);
    assert_eq!(app.step, AppStep::Complete);
}

#[test]
fn scenario_restart_restores_initial_state() {
    let (mut app, mut progress) = wizard_at_confirm(1, "http://x", 2);
    handle_enter(&mut app, &mut progress);
    let outcome = InvocationOutcome::Exited { success: true, stderr: Vec::new() };
    update_progress_with_result(&outcome, 1, &mut progress);
    check_download_status(&mut app, &progress);
    assert_eq!(app.step, AppStep::Complete);

    handle_key_event(&mut app, &mut progress, KeyInput::Char('r'));
    assert_eq!(app, AppState::new());
    assert_eq!(progress, DownloadProgress::new());
}

#[test]
fn restart_only_from_complete() {
    let (mut app, mut progress) = wizard_at_confirm(1, "http://x", 2);
    handle_key_event(&mut app, &mut progress, KeyInput::Char('r'));
    assert_eq!(app.step, AppStep::Confirm);
}

#[test]
fn terminal_messages_exact() {
    assert_eq!(complete_text(), "Download complete! Press 'r' to restart or 'q' to quit");
    assert_eq!(no_subtitles_text(), "No subtitles available! Press 'r' to restart or 'q' to quit");
    assert_eq!(failed_text(), "Download failed! Press 'r' to restart or 'q' to quit");
}

#[test]
fn url_display_truncates() {
    assert_eq!(get_url_display(""), "Not entered");
    assert_eq!(get_url_display("http://x"), "http://x");
    let long = "http://example.invalid/watch?v=aaaaaaaaaaaaaaaaaaaaaaaaaaaaaaaa";
    assert!(long.len() > 50);
    assert_eq!(get_url_display(long), &long[..50]);
}

#[test]
fn format_string_names_selection() {
    let mut app = AppState::new();
    assert_eq!(get_format_string(&app), "Not selected");
    app = wizard_at_confirm(0, "u", 0).0;
    assert_eq!(get_format_string(&app), "MP4");
    app = wizard_at_confirm(0, "u", 2).0;
    assert_eq!(get_format_string(&app), "WebM");
    app = wizard_at_confirm(1, "u", 4).0;
    assert_eq!(get_format_string(&app), "M4A");
    app = wizard_at_confirm(2, "u", 1).0;
    assert_eq!(get_format_string(&app), "All");
}

#[test]
fn initial_state_shape() {
    let app = AppState::new();
    assert_eq!(app.step, AppStep::SelectType);
    assert_eq!(app.download_type, None);
    assert_eq!(app.url, "");
    assert_eq!(app.format, None);
    assert_eq!(app.status, "Select download type using arrow keys and Enter");
    assert_eq!(app.selected, 0);
    assert!(!app.input_mode);
    let progress = DownloadProgress::new();
    assert!(!progress.active);
    assert_eq!(progress.message, "");
    assert_eq!(progress.spinner_index, 0);
}
