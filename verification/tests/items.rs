//! The item record types and their constructors.

use std::path::PathBuf;

use zlaunch::item::Item;
use zlaunch::items::action::ActionItem;
use zlaunch::items::action::ActionKind;
use zlaunch::items::submenu::SubmenuItem;
use zlaunch::items::submenu::SubmenuLayout;
use zlaunch::items::window::WindowItem;

#[test]
fn item_keeps_its_fields() {
    let it = Item::new(
        "org.mozilla.firefox".to_string(),
        "Firefox".to_string(),
        Some("Web browser".to_string()),
        Some("/usr/share/icons/firefox.png".to_string()),
    );
    assert_eq!(it.id, "org.mozilla.firefox");
    assert_eq!(it.name, "Firefox");
    assert_eq!(it.description.as_deref(), Some("Web browser"));
    assert_eq!(it.icon_path.as_deref(), Some("/usr/share/icons/firefox.png"));
}

#[test]
fn action_item_keeps_its_fields() {
    let a = ActionItem::new(
        "shutdown".to_string(),
        "Shut down".to_string(),
        None,
        Some("power".to_string()),
        ActionKind::Shutdown,
    );
    assert_eq!(a.id, "shutdown");
    assert_eq!(a.name, "Shut down");
    assert!(a.description.is_none());
    assert_eq!(a.icon_name.as_deref(), Some("power"));
    assert!(matches!(a.kind, ActionKind::Shutdown));

    let c = ActionItem::new(
        "cmd".to_string(),
        "Run".to_string(),
        None,
        None,
        ActionKind::Command("echo hi".to_string()),
    );
    assert!(matches!(c.kind, ActionKind::Command(ref s) if s == "echo hi"));
}

#[test]
fn submenu_constructors_fill_the_layouts() {
    let l = SubmenuItem::list("apps".to_string(), "Applications".to_string());
    assert_eq!(l.id, "apps");
    assert_eq!(l.name, "Applications");
    assert!(l.description.is_none());
    assert!(l.icon_name.is_none());
    assert!(matches!(l.layout, SubmenuLayout::List));

    let g = SubmenuItem::grid("emoji".to_string(), "Emoji".to_string(), 8);
    assert!(matches!(g.layout, SubmenuLayout::Grid { columns: 8 }));

    let c = SubmenuItem::custom(
        "calc".to_string(),
        "Calculator".to_string(),
        "calculator".to_string(),
    );
    assert!(matches!(c.layout, SubmenuLayout::Custom(ref s) if s == "calculator"));

    let n = SubmenuItem::new(
        "x".to_string(),
        "X".to_string(),
        Some("d".to_string()),
        Some("i".to_string()),
        SubmenuLayout::Grid { columns: 2 },
    );
    assert_eq!(n.description.as_deref(), Some("d"));
    assert!(matches!(n.layout, SubmenuLayout::Grid { columns: 2 }));
}

#[test]
fn submenu_layout_defaults_to_list() {
    assert!(matches!(SubmenuLayout::default(), SubmenuLayout::List));
}

#[test]
fn window_item_keeps_its_fields() {
    let w = WindowItem::new(
        "42".to_string(),
        "zlaunch - editor".to_string(),
        "org.gnome.TextEditor".to_string(),
        "Text Editor".to_string(),
        Some(PathBuf::from("/usr/share/icons/editor.svg")),
    );
    assert_eq!(w.id, "42");
    assert_eq!(w.title, "zlaunch - editor");
    assert_eq!(w.app_id, "org.gnome.TextEditor");
    assert_eq!(w.app_name, "Text Editor");
    assert_eq!(w.icon_path, Some(PathBuf::from("/usr/share/icons/editor.svg")));
}
