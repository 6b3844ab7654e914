//! The launchable entry that the filter subsystem works on.

use vstd::prelude::*;

verus! {

/// A single launchable entry: an application record with a display name and
/// optional metadata. Immutable once the collection is loaded.
#[derive(Clone, Debug)]
pub struct Item {
    /// Stable identifier of the entry.
    pub id: String,
    /// Name shown in the list; the fuzzy scorer matches the query against it.
    pub name: String,
    /// Optional longer description shown under the name.
    pub description: Option<String>,
    /// Optional icon reference used only for rendering.
    pub icon_path: Option<String>,
}

impl Item {
    pub fn new(
        id: String,
        name: String,
        description: Option<String>,
        icon_path: Option<String>,
    ) -> (r: Item)
        ensures
            r.id == id,
            r.name == name,
            r.description == description,
            r.icon_path == icon_path,
    {
        Item { id, name, description, icon_path }
    }
}

} // verus!
