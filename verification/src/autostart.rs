//! The desktop entry that registers the running executable to start with
//! the user's session. Writing and removing the file is the embedding
//! application's job; the entry's exact contents are fixed here.

use vstd::prelude::*;

verus! {

/// The desktop entry's text for an executable path.
pub open spec fn desktop_entry_text(exec_path: Seq<char>) -> Seq<char> {
    "[Desktop Entry]\nType=Application\nName=askollama\nExec="@ + exec_path
        + "\nX-GNOME-Autostart-enabled=true\n"@
}

/// Builds the autostart desktop entry referencing the given executable
/// path.
pub fn desktop_entry(exec_path: &str) -> (r: String)
    ensures
        r@ == desktop_entry_text(exec_path@),
{
    let mut r = String::from_str("[Desktop Entry]\nType=Application\nName=askollama\nExec=");
    r.append(exec_path);
    r.append("\nX-GNOME-Autostart-enabled=true\n");
    r
}

} // verus!
