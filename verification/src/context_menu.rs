//! The entries of a context menu.

use vstd::prelude::*;

verus! {

/// One entry of a context menu: what it says, the icon beside it, and the
/// message that choosing it sends.
pub struct MenuItem<Message> {
    pub label: String,
    pub icon: Option<&'static [u8]>,
    pub action: Message,
}

impl<Message> MenuItem<Message> {
    /// An entry with a label and an action, and no icon.
    pub fn new(label: &str, action: Message) -> (item: Self)
        ensures
            item.label@ == label@,
            item.icon is None,
            item.action == action,
    {
        MenuItem { label: label.to_owned(), icon: None, action }
    }

    /// The same entry with `icon` beside its label. The icon is the bytes of
    /// an image that lives as long as the program.
    pub fn with_icon(self, icon: &'static [u8]) -> (item: Self)
        ensures
            item.label == self.label,
            item.icon == Some(icon),
            item.action == self.action,
    {
        let mut item = self;
        item.icon = Some(icon);
        item
    }
}

} // verus!
