use vstd::prelude::*;

verus! {

/// A shortcut as the widget's launcher panel stores it: an identifier, a
/// display name, the target path, whether it points at a file or a folder,
/// an optional cached icon in base64 text, and its timestamps.
#[derive(Debug, Clone)]
pub struct ShortcutItem {
    pub id: String,
    pub name: String,
    pub path: String,
    pub kind: String,
    pub icon: Option<String>,
    pub created_at: String,
    pub updated_at: String,
}

/// Payload for creating a shortcut in the launcher panel.
#[derive(Debug)]
pub struct CreateShortcutRequest {
    pub name: String,
    pub path: String,
    pub kind: String,
}

/// Partial update of a launcher shortcut: only the present fields change.
#[derive(Debug)]
pub struct UpdateShortcutRequest {
    pub id: String,
    pub name: Option<String>,
    pub path: Option<String>,
    pub kind: Option<String>,
}

} // verus!
