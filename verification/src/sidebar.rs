//! State of the sidebar: fixed dimensions and the buttons it reacts to.
//! Connecting, disconnecting and refreshing are carried out by whoever
//! routes the messages; the sidebar itself keeps no session state.

use vstd::prelude::*;

verus! {

/// What the sidebar reacts to.
#[derive(Clone, Copy, PartialEq, Eq, Structural, Debug)]
pub enum SidebarMessage {
    ConnectPressed,
    DisconnectPressed,
    RefreshPressed,
}

/// State of the sidebar.
#[derive(Debug)]
pub struct Sidebar {
    width: u32,
    height: u32,
}

impl Sidebar {
    /// The sidebar's width and height.
    pub closed spec fn dims(&self) -> (u32, u32) {
        (self.width, self.height)
    }

    /// The sidebar's width.
    pub fn width(&self) -> (w: u32)
        ensures
            w == self.dims().0,
    {
        self.width
    }

    /// The sidebar's height.
    pub fn height(&self) -> (h: u32)
        ensures
            h == self.dims().1,
    {
        self.height
    }

    /// React to a button press. No sidebar state depends on them.
    pub fn update(&mut self, message: SidebarMessage)
        ensures
            *final(self) == *old(self),
    {
        match message {
            SidebarMessage::ConnectPressed => {},
            SidebarMessage::DisconnectPressed => {},
            SidebarMessage::RefreshPressed => {},
        }
    }
}

impl Default for Sidebar {
    /// A fresh sidebar with its fixed dimensions.
    fn default() -> (s: Self)
        ensures
            s.dims() == (100u32, 100u32),
    {
        Sidebar { width: 100, height: 100 }
    }
}

} // verus!
