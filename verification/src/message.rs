//! Message content that cannot be rendered in game.

use vstd::prelude::*;
use crate::enums::AdditionalContentType;
use crate::text::{copy_opt, own_opt, same_opt, view_opt, view_opt_str};

verus! {

/// What an [`AdditionalContent`] holds.
pub struct AdditionalContentView {
    pub content_type: AdditionalContentType,
    pub title: Option<Seq<char>>,
    pub count: u8,
}

/// Non-text content attached to a message.
///
/// Describes content that likely cannot be rendered in game — images, videos,
/// embeds, polls and similar — so the game can show a notice that there is more
/// to see on Discord.
#[derive(Debug)]
pub struct AdditionalContent {
    content_type: AdditionalContentType,
    title: Option<String>,
    count: u8,
}

impl View for AdditionalContent {
    type V = AdditionalContentView;

    closed spec fn view(&self) -> AdditionalContentView {
        AdditionalContentView {
            content_type: self.content_type,
            title: view_opt(self.title),
            count: self.count,
        }
    }
}

impl AdditionalContent {
    /// What a new value holds: the `Other` kind, no title, and a count of `0`.
    ///
    /// These starting values are this library's own choice, the natural empty
    /// value of each field; the SDK's initializer documents none of its defaults.
    pub open spec fn new_view() -> AdditionalContentView {
        AdditionalContentView { content_type: AdditionalContentType::Other, title: None, count: 0 }
    }

    /// Create a new value; see [`new_view`](Self::new_view).
    pub fn new() -> (r: Self)
        ensures
            r@ == Self::new_view(),
    {
        AdditionalContent { content_type: AdditionalContentType::Other, title: None, count: 0 }
    }

    /// The kind of additional content in the message.
    ///
    /// Named `content_type` because `type` is a Rust keyword.
    pub fn content_type(&self) -> (r: AdditionalContentType)
        ensures
            r == self@.content_type,
    {
        self.content_type
    }

    /// Set the kind of additional content.
    pub fn set_content_type(&mut self, value: AdditionalContentType)
        ensures
            final(self)@ == (AdditionalContentView { content_type: value, ..old(self)@ }),
    {
        self.content_type = value;
    }

    /// The name of the poll or thread, when the additional content is one of those.
    pub fn title(&self) -> (r: Option<String>)
        ensures
            view_opt(r) == self@.title,
    {
        copy_opt(&self.title)
    }

    /// Set the title, or clear it with `None`.
    pub fn set_title(&mut self, value: Option<&str>)
        ensures
            final(self)@ == (AdditionalContentView { title: view_opt_str(value), ..old(self)@ }),
    {
        self.title = own_opt(value);
    }

    /// How many pieces of additional content the message carries.
    pub fn count(&self) -> (r: u8)
        ensures
            r == self@.count,
    {
        self.count
    }

    /// Set the number of pieces of additional content.
    pub fn set_count(&mut self, value: u8)
        ensures
            final(self)@ == (AdditionalContentView { count: value, ..old(self)@ }),
    {
        self.count = value;
    }
}

impl Default for AdditionalContent {
    /// Same as [`AdditionalContent::new`].
    fn default() -> (r: Self)
        ensures
            r@ == AdditionalContent::new_view(),
    {
        AdditionalContent::new()
    }
}

/// Compares each field of the additional content for equality.
impl PartialEq for AdditionalContent {
    fn eq(&self, other: &Self) -> (r: bool) {
        self.content_type == other.content_type && same_opt(&self.title, &other.title)
            && self.count == other.count
    }
}

impl vstd::std_specs::cmp::PartialEqSpecImpl for AdditionalContent {
    open spec fn obeys_eq_spec() -> bool {
        true
    }

    open spec fn eq_spec(&self, other: &AdditionalContent) -> bool {
        self@ == other@
    }
}


impl Clone for AdditionalContent {
    /// An independent copy: it holds what `self` holds.
    fn clone(&self) -> (r: Self)
        ensures
            r@ == self@,
    {
        AdditionalContent {
            content_type: self.content_type,
            title: copy_opt(&self.title),
            count: self.count,
        }
    }
}

} // verus!
