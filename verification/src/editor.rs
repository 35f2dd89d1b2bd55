//! The glue between a plugin's editor view and the window that embeds it.

use crate::lifecycle::VSTHostContext;
use vstd::prelude::*;

verus! {

/// A rectangle in the coordinates of a window.
#[derive(Debug, Clone, Copy, PartialEq, Eq, Structural, Default)]
pub struct ViewRect {
    pub left: i32,
    pub top: i32,
    pub right: i32,
    pub bottom: i32,
}

/// The kinds of native window handle.
#[derive(Debug, Clone, Copy, PartialEq, Eq, Structural)]
pub enum PlatformType {
    HWND,
    HIView,
    NSView,
    UIView,
}

impl PlatformType {
    pub open spec fn spec_name(self) -> Seq<u8> {
        match self {
            PlatformType::HWND => seq![0x48u8, 0x57, 0x4E, 0x44, 0],
            PlatformType::HIView => seq![0x48u8, 0x49, 0x56, 0x69, 0x65, 0x77, 0],
            PlatformType::NSView => seq![0x4Eu8, 0x53, 0x56, 0x69, 0x65, 0x77, 0],
            PlatformType::UIView => seq![0x55u8, 0x49, 0x56, 0x69, 0x65, 0x77, 0],
        }
    }

    /// The name of the kind as a view takes it: ASCII, NUL-terminated.
    pub fn name(self) -> (name: Vec<u8>)
        ensures
            name@ == self.spec_name(),
    {
        let name = match self {
            PlatformType::HWND => vec![0x48u8, 0x57, 0x4E, 0x44, 0],
            PlatformType::HIView => vec![0x48u8, 0x49, 0x56, 0x69, 0x65, 0x77, 0],
            PlatformType::NSView => vec![0x4Eu8, 0x53, 0x56, 0x69, 0x65, 0x77, 0],
            PlatformType::UIView => vec![0x55u8, 0x49, 0x56, 0x69, 0x65, 0x77, 0],
        };
        assert(name@ =~= self.spec_name());
        name
    }
}

impl ViewRect {
    /// The width and the height of the rectangle; zero where it is turned
    /// inside out.
    pub open spec fn spec_extents(self) -> (u32, u32) {
        (
            if self.right > self.left {
                (self.right - self.left) as u32
            } else {
                0u32
            },
            if self.bottom > self.top {
                (self.bottom - self.top) as u32
            } else {
                0u32
            },
        )
    }

    /// The rectangle of a window of a size, with its corner at the origin.
    /// An extent beyond the largest coordinate is cut off there.
    pub open spec fn spec_of_size(width: u32, height: u32) -> ViewRect {
        ViewRect {
            left: 0,
            top: 0,
            right: if width <= i32::MAX {
                width as i32
            } else {
                i32::MAX
            },
            bottom: if height <= i32::MAX {
                height as i32
            } else {
                i32::MAX
            },
        }
    }

    pub fn extents(&self) -> (extents: (u32, u32))
        ensures
            extents == self.spec_extents(),
    {
        let width: u32 = if self.right > self.left {
            (self.right as i64 - self.left as i64) as u32
        } else {
            0
        };
        let height: u32 = if self.bottom > self.top {
            (self.bottom as i64 - self.top as i64) as u32
        } else {
            0
        };
        (width, height)
    }

    pub fn of_size(width: u32, height: u32) -> (rect: ViewRect)
        ensures
            rect == ViewRect::spec_of_size(width, height),
    {
        ViewRect {
            left: 0,
            top: 0,
            right: if width <= i32::MAX as u32 {
                width as i32
            } else {
                i32::MAX
            },
            bottom: if height <= i32::MAX as u32 {
                height as i32
            } else {
                i32::MAX
            },
        }
    }
}

/// What the window of a view tells the thread of its plugin.
#[derive(Debug, Clone, Copy, PartialEq, Eq, Structural)]
pub enum PluginCommand {
    CloseWindow,
}

/// What the window is to do for the view.
#[derive(Debug, Clone, Copy, PartialEq, Eq, Structural)]
pub enum ViewAction {
    /// Nothing is to be done.
    Nothing,
    /// Attach the view at this address to the window, as a handle of this
    /// kind.
    Attach { view: usize, platform: PlatformType },
    /// Ask the view at this address whether this rectangle suits it.
    CheckSizeConstraint { view: usize, rect: ViewRect },
    /// Ask for this inner size of the window.
    RequestInnerSize { width: u32, height: u32 },
    /// Send the command to the thread of the plugin, and tell the view at
    /// this address that it was removed.
    Remove { view: usize, command: PluginCommand },
}

/// The window of a plugin's editor view.
#[derive(Debug, Clone, Copy, PartialEq, Eq, Structural)]
pub struct PlugView {
    /// Whether a thread of the plugin listens for commands.
    pub tx: bool,
    /// The rectangle that the view was last asked about.
    pub pending: Option<ViewRect>,
}

impl PlugView {
    pub fn new() -> (window: PlugView)
        ensures
            window == (PlugView { tx: false, pending: None }),
    {
        PlugView { tx: false, pending: None }
    }

    /// The window was opened: the view of the plugin is attached to it, if
    /// the plugin has a view that may be attached.
    pub fn on_open(&self, plugin: &VSTHostContext, platform: PlatformType) -> (action: ViewAction)
        ensures
            action == if plugin.spec_can_attach() {
                ViewAction::Attach { view: plugin.view.unwrap(), platform }
            } else {
                ViewAction::Nothing
            },
    {
        if plugin.can_attach() {
            match plugin.view {
                Some(view) => ViewAction::Attach { view, platform },
                None => ViewAction::Nothing,
            }
        } else {
            ViewAction::Nothing
        }
    }

    /// The window was resized to an inner size: the view is asked whether
    /// the rectangle of that size suits it.
    pub fn on_resized(&mut self, plugin: &VSTHostContext, width: u32, height: u32) -> (action:
        ViewAction)
        ensures
            final(self).tx == old(self).tx,
            plugin.view is Some && plugin.attached ==> {
                &&& action == ViewAction::CheckSizeConstraint {
                    view: plugin.view.unwrap(),
                    rect: ViewRect::spec_of_size(width, height),
                }
                &&& final(self).pending == Some(ViewRect::spec_of_size(width, height))
            },
            !(plugin.view is Some && plugin.attached) ==> action == ViewAction::Nothing
                && final(self).pending == old(self).pending,
    {
        if plugin.attached {
            match plugin.view {
                Some(view) => {
                    let rect = ViewRect::of_size(width, height);
                    self.pending = Some(rect);
                    ViewAction::CheckSizeConstraint { view, rect }
                },
                None => ViewAction::Nothing,
            }
        } else {
            ViewAction::Nothing
        }
    }

    /// The view has answered the question about a rectangle with the
    /// rectangle that suits it. If it rewrote the rectangle, the window is
    /// asked to take the extents of the answer.
    pub fn on_size_constraint(&mut self, answer: ViewRect) -> (action: ViewAction)
        ensures
            final(self).tx == old(self).tx,
            final(self).pending is None,
            action == match old(self).pending {
                Some(asked) => if asked == answer {
                    ViewAction::Nothing
                } else {
                    ViewAction::RequestInnerSize {
                        width: answer.spec_extents().0,
                        height: answer.spec_extents().1,
                    }
                },
                None => ViewAction::Nothing,
            },
    {
        let pending = self.pending;
        self.pending = None;
        match pending {
            Some(asked) => {
                if asked == answer {
                    ViewAction::Nothing
                } else {
                    let (width, height) = answer.extents();
                    ViewAction::RequestInnerSize { width, height }
                }
            },
            None => ViewAction::Nothing,
        }
    }

    /// The window is closing: the thread of the plugin is told, and the
    /// view is told of its removal before it is released, if it is
    /// attached.
    pub fn on_close(&self, plugin: &VSTHostContext) -> (action: ViewAction)
        ensures
            action == if plugin.view is Some && plugin.attached {
                ViewAction::Remove {
                    view: plugin.view.unwrap(),
                    command: PluginCommand::CloseWindow,
                }
            } else {
                ViewAction::Nothing
            },
    {
        if plugin.attached {
            match plugin.view {
                Some(view) => ViewAction::Remove { view, command: PluginCommand::CloseWindow },
                None => ViewAction::Nothing,
            }
        } else {
            ViewAction::Nothing
        }
    }
}

/// The rectangle of a window of a size has that size as its extents, and
/// a rectangle with its corner at the origin has its far corner as its
/// extents.
pub proof fn lemma_extents_of_size(width: u32, height: u32, rect: ViewRect)
    ensures
        width <= i32::MAX && height <= i32::MAX ==> ViewRect::spec_of_size(
            width,
            height,
        ).spec_extents() == (width, height),
        rect.left == 0 && rect.top == 0 && rect.right >= 0 && rect.bottom >= 0
            ==> rect.spec_extents() == (rect.right as u32, rect.bottom as u32),
{
}

} // verus!
