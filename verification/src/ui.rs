//! Display helpers for the info panel: the resolved format name and the
//! URL line, both plain functions of the wizard state. The widget layout
//! itself lives outside the library, behind the renderer.

use vstd::prelude::*;
use vstd::string::StringSliceAdditionalSpecFns;
use vstd::utf8::is_char_boundary;
use crate::app::{AppState, AppModel};

verus! {

/// The display name of the selected format, or a placeholder until both
/// the type and the format have been recorded.
pub open spec fn format_display_name(m: AppModel) -> Seq<char> {
    match m.download_type {
        Some(t) => match m.format {
            Some(f) => {
                if t == 0 {
                    if f == 0 {
                        "MP4"@
                    } else if f == 1 {
                        "MKV"@
                    } else {
                        "WebM"@
                    }
                } else if t == 1 {
                    if f == 0 {
                        "FLAC"@
                    } else if f == 1 {
                        "MP3"@
                    } else if f == 2 {
                        "WAV"@
                    } else if f == 3 {
                        "AAC"@
                    } else {
                        "M4A"@
                    }
                } else {
                    if f == 0 {
                        "English"@
                    } else {
                        "All"@
                    }
                }
            },
            None => "Not selected"@,
        },
        None => "Not selected"@,
    }
}

/// The format name shown in the info panel.
pub fn get_format_string(app: &AppState) -> (r: &'static str)
    requires
        app@.wf(),
    ensures
        r@ == format_display_name(app@),
{
    match app.download_type {
        Some(t) => match app.format {
            Some(f) => {
                if t == 0 {
                    if f == 0 {
                        "MP4"
                    } else if f == 1 {
                        "MKV"
                    } else {
                        "WebM"
                    }
                } else if t == 1 {
                    if f == 0 {
                        "FLAC"
                    } else if f == 1 {
                        "MP3"
                    } else if f == 2 {
                        "WAV"
                    } else if f == 3 {
                        "AAC"
                    } else {
                        "M4A"
                    }
                } else {
                    if f == 0 {
                        "English"
                    } else {
                        "All"
                    }
                }
            },
            None => "Not selected",
        },
        None => "Not selected",
    }
}

/// The URL line shown in the info panel: a placeholder until one is
/// entered, and at most the first 50 bytes of a long one. A URL longer
/// than 50 bytes must be splittable there without cutting a character in
/// half.
pub fn get_url_display(url: &str) -> (r: &str)
    requires
        url.spec_bytes().len() <= usize::MAX,
        url@.len() > 0 && url.spec_bytes().len() > 50 ==> is_char_boundary(url.spec_bytes(), 50),
    ensures
        url@.len() == 0 ==> r@ == "Not entered"@,
        url@.len() > 0 && url.spec_bytes().len() > 50 ==> r.spec_bytes() == url.spec_bytes()
            .subrange(0, 50),
        url@.len() > 0 && url.spec_bytes().len() <= 50 ==> r@ == url@,
{
    if url.is_empty() {
        "Not entered"
    } else if url.len() > 50 {
        let (head, _) = url.split_at(50);
        proof {
            assert(head.spec_bytes() =~= url.spec_bytes().subrange(0, 50));
        }
        head
    } else {
        url
    }
}

} // verus!
