//! The per-tick checks of the interaction loop: consuming a finished
//! download attempt and advancing the spinner animation.

use vstd::prelude::*;
use crate::app::{AppState, AppStep, AppModel, DownloadProgress, ProgressModel};

verus! {

/// What one completion check does to the wizard: only while the
/// downloading screen is current, and only once the record shows an
/// inactive attempt with a posted message, the wizard moves to the
/// completion screen carrying that message as its status.
pub open spec fn check_download_model(m: AppModel, p: ProgressModel) -> AppModel {
    if m.step is Downloading && !p.active && p.message.len() > 0 {
        AppModel { step: AppStep::Complete, status: p.message, ..m }
    } else {
        m
    }
}

/// One spinner tick: while an attempt is active the index advances by
/// exactly one frame, modulo the eight frames; otherwise nothing moves.
pub open spec fn tick_model(p: ProgressModel) -> ProgressModel {
    if p.active {
        ProgressModel { spinner_index: ((p.spinner_index + 1) % 8) as usize, ..p }
    } else {
        p
    }
}

/// Consumes a finished download attempt, if there is one to consume: the
/// caller passes a snapshot of the shared record read under its lock, so
/// the inactive flag and the message are observed together.
pub fn check_download_status(app: &mut AppState, progress: &DownloadProgress)
    requires
        old(app)@.wf(),
    ensures
        final(app)@ == check_download_model(old(app)@, progress@),
        final(app)@.wf(),
{
    if app.step == AppStep::Downloading {
        if !progress.active && !progress.message.as_str().is_empty() {
            app.step = AppStep::Complete;
            app.status = progress.message.clone();
        }
    }
    proof {
        assert(app@ =~= check_download_model(old(app)@, progress@));
    }
}

/// Advances the spinner by one frame, but only while the downloading
/// screen is current and the attempt is still active.
pub fn update_spinner(app: &AppState, progress: &mut DownloadProgress)
    requires
        old(progress)@.wf(),
    ensures
        final(progress)@ == (if app@.step is Downloading {
            tick_model(old(progress)@)
        } else {
            old(progress)@
        }),
        final(progress)@.wf(),
{
    if app.step == AppStep::Downloading {
        if progress.active {
            progress.spinner_index = (progress.spinner_index + 1) % 8;
        }
    }
    proof {
        assert(progress@ =~= (if app@.step is Downloading {
            tick_model(old(progress)@)
        } else {
            old(progress)@
        }));
    }
}

/// Law: a completed attempt is consumed exactly once. When the wizard is
/// on the downloading screen and the record shows an inactive attempt
/// with a posted message, the check moves the wizard to the completion
/// screen with that message as its status — and every later check against
/// the same record changes nothing, however many ticks observe it.
pub proof fn lemma_completion_consumed_once(m: AppModel, p: ProgressModel)
    requires
        m.step is Downloading,
        !p.active,
        p.message.len() > 0,
    ensures
        check_download_model(m, p).step is Complete,
        check_download_model(m, p).status == p.message,
        check_download_model(check_download_model(m, p), p) == check_download_model(m, p),
{
}

/// Law: the spinner advances by exactly one frame per tick while the
/// attempt is active, always stays within the eight frames, touches
/// nothing else in the record, and never advances once the attempt is
/// inactive.
pub proof fn lemma_spinner_protocol(p: ProgressModel)
    requires
        p.wf(),
    ensures
        p.active ==> tick_model(p).spinner_index == (p.spinner_index + 1) % 8,
        tick_model(p).spinner_index < 8,
        !p.active ==> tick_model(p) == p,
        tick_model(p).active == p.active,
        tick_model(p).message == p.message,
{
}

} // verus!
