use vstd::prelude::*;

verus! {

/// The layout style for a submenu.
/// Different submenus may have different UI layouts.
#[derive(Clone, Debug)]
pub enum SubmenuLayout {
    /// Standard vertical list (default)
    List,
    /// Grid layout (e.g., for emoji picker)
    Grid { columns: usize },
    /// Custom layout identified by name (e.g., "calculator", "unit-converter")
    Custom(String),
}

impl Default for SubmenuLayout {
    fn default() -> (r: SubmenuLayout)
        ensures
            r == SubmenuLayout::List,
    {
        SubmenuLayout::List
    }
}

/// A submenu item that opens a nested list or custom UI.
/// This is a placeholder for future implementation.
#[derive(Clone, Debug)]
pub struct SubmenuItem {
    pub id: String,
    pub name: String,
    pub description: Option<String>,
    pub icon_name: Option<String>,
    pub layout: SubmenuLayout,
}

impl SubmenuItem {
    pub fn new(
        id: String,
        name: String,
        description: Option<String>,
        icon_name: Option<String>,
        layout: SubmenuLayout,
    ) -> (r: SubmenuItem)
        ensures
            r.id == id,
            r.name == name,
            r.description == description,
            r.icon_name == icon_name,
            r.layout == layout,
    {
        SubmenuItem { id, name, description, icon_name, layout }
    }

    /// Create a simple list submenu
    pub fn list(id: String, name: String) -> (r: SubmenuItem)
        ensures
            r.id == id,
            r.name == name,
            r.description is None,
            r.icon_name is None,
            r.layout == SubmenuLayout::List,
    {
        SubmenuItem {
            id,
            name,
            description: None,
            icon_name: None,
            layout: SubmenuLayout::List,
        }
    }

    /// Create a grid submenu
    pub fn grid(id: String, name: String, columns: usize) -> (r: SubmenuItem)
        ensures
            r.id == id,
            r.name == name,
            r.description is None,
            r.icon_name is None,
            r.layout == (SubmenuLayout::Grid { columns }),
    {
        SubmenuItem {
            id,
            name,
            description: None,
            icon_name: None,
            layout: SubmenuLayout::Grid { columns },
        }
    }

    /// Create a custom layout submenu
    pub fn custom(id: String, name: String, layout_name: String) -> (r: SubmenuItem)
        ensures
            r.id == id,
            r.name == name,
            r.description is None,
            r.icon_name is None,
            r.layout == SubmenuLayout::Custom(layout_name),
    {
        SubmenuItem {
            id,
            name,
            description: None,
            icon_name: None,
            layout: SubmenuLayout::Custom(layout_name),
        }
    }
}

} // verus!
