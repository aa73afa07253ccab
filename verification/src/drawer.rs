//! A generic modal drawer: a backdrop and a content panel with a title
//! and a close control.
//!
//! The drawer holds no open/closed state of its own; whether it is shown
//! is entirely the parent's decision. Both ways of dismissing it — the
//! backdrop and the explicit close control — emit the same message.

use vstd::prelude::*;

verus! {

/// A drawer under construction: a title, an arbitrary content view, and
/// the message to emit when it is dismissed.
#[derive(Debug)]
pub struct Drawer<M, C> {
    pub title: String,
    pub content: C,
    pub on_close: Option<M>,
}

/// What the host widget draws for a drawer. When `close_message` is set,
/// the close control and a click on the backdrop both emit it; with
/// `None` the drawer cannot be dismissed from inside.
#[derive(Debug)]
pub struct DrawerView<M, C> {
    pub title: String,
    pub content: C,
    pub close_message: Option<M>,
}

impl<M, C> Drawer<M, C> {
    /// A drawer over `content`, not yet dismissible.
    pub fn new(title: String, content: C) -> (d: Self)
        ensures
            d.title == title,
            d.content == content,
            d.on_close is None,
    {
        Drawer { title, content, on_close: None }
    }

    /// The same drawer, dismissed with `message`.
    pub fn on_close(self, message: M) -> (d: Self)
        ensures
            d.title == self.title,
            d.content == self.content,
            d.on_close == Some(message),
    {
        Drawer { title: self.title, content: self.content, on_close: Some(message) }
    }

    /// What the widget draws: the one configured close message serves
    /// both the close control and the backdrop.
    pub fn view(self) -> (v: DrawerView<M, C>)
        ensures
            v.title == self.title,
            v.content == self.content,
            v.close_message == self.on_close,
    {
        DrawerView { title: self.title, content: self.content, close_message: self.on_close }
    }
}

} // verus!
