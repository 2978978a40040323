//! Which directory the watcher monitors: the configured override when one
//! is set, otherwise the platform's pictures directory (or a fallback)
//! plus a fixed subfolder.

use vstd::prelude::*;

use crate::settings::Settings;
use crate::settings::SettingsView;

verus! {

/// The directory the watcher monitors, given the platform's pictures
/// directory (if the environment defines one) and the configuration: the
/// configured override verbatim when present, otherwise the pictures
/// directory — or `/tmp` when there is none — with the fixed screenshots
/// subfolder appended.
pub open spec fn resolved_watch_dir(
    default_pictures: Option<Seq<char>>,
    s: SettingsView,
) -> Seq<char> {
    match s.screenshots_dir {
        Some(d) => d,
        None => match default_pictures {
            Some(p) => p + "/Screenshots"@,
            None => "/tmp/Screenshots"@,
        },
    }
}

/// Resolves the watch directory from the given platform pictures directory
/// and the configuration snapshot.
pub fn resolve_watch_dir(default_pictures: &Option<String>, settings: &Settings) -> (r: String)
    ensures
        r@ == resolved_watch_dir(default_pictures.deep_view(), settings@),
{
    match &settings.screenshots_dir {
        Some(d) => d.clone(),
        None => match default_pictures {
            Some(p) => {
                let mut r = p.clone();
                r.append("/Screenshots");
                r
            },
            None => String::from_str("/tmp/Screenshots"),
        },
    }
}

/// Relies on `dirs::picture_dir`: the platform's pictures directory, when
/// the environment defines one. The result depends on the environment, so
/// nothing is promised of it.
#[verifier::external_body]
fn platform_picture_dir() -> Option<String> {
    match dirs::picture_dir() {
        Some(p) => Some(p.to_string_lossy().into_owned()),
        None => None,
    }
}

/// The directory the watcher starts on: reads the platform's pictures
/// directory and resolves against the configuration snapshot. A configured
/// override wins whatever the platform answers; without one the result is
/// the resolution of some platform answer.
pub fn watch_directory(settings: &Settings) -> (r: String)
    ensures
        settings@.screenshots_dir matches Some(d) ==> r@ == d,
        exists|p: Option<Seq<char>>| r@ == resolved_watch_dir(p, settings@),
{
    let default_pictures = platform_picture_dir();
    let r = resolve_watch_dir(&default_pictures, settings);
    proof {
        assert(r@ == resolved_watch_dir(default_pictures.deep_view(), settings@));
    }
    r
}

} // verus!
