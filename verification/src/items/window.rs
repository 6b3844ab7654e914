use vstd::prelude::*;

verus! {

/// Declares std's `PathBuf` so it can stand in a field. The value is opaque
/// here: it is carried through, never inspected.
#[verifier::external_type_specification]
#[verifier::external_body]
pub struct ExPathBuf(std::path::PathBuf);

/// A window item representing an open window for window switching.
/// This is a placeholder for future implementation.
#[derive(Clone, Debug)]
pub struct WindowItem {
    pub id: String,
    pub title: String,
    pub app_id: String,
    pub app_name: String,
    pub icon_path: Option<std::path::PathBuf>,
}

impl WindowItem {
    pub fn new(
        id: String,
        title: String,
        app_id: String,
        app_name: String,
        icon_path: Option<std::path::PathBuf>,
    ) -> (r: WindowItem)
        ensures
            r.id == id,
            r.title == title,
            r.app_id == app_id,
            r.app_name == app_name,
            r.icon_path == icon_path,
    {
        WindowItem { id, title, app_id, app_name, icon_path }
    }
}

} // verus!
