//! Show, hide and toggle of the managed panel, and the pinned mode that keeps
//! it up when it loses focus.
use vstd::prelude::*;

verus! {

#[derive(Clone, Copy, Debug, PartialEq, Eq, Structural)]
pub enum Visibility {
    Hidden,
    Visible,
}

/// What the panel needs to be placed at the top-right corner of the primary
/// display, in physical pixels: the display's width, the panel's width, and
/// the right and top margins already scaled to the display.
#[derive(Clone, Copy, Debug, PartialEq, Eq, Structural)]
pub struct Placement {
    pub screen_width: u32,
    pub window_width: u32,
    pub margin: i32,
    pub top_margin: i32,
}

/// A position on the display in physical pixels.
#[derive(Clone, Copy, Debug, PartialEq, Eq, Structural)]
pub struct Position {
    pub x: i64,
    pub y: i64,
}

/// What the window toolkit is asked to do.
#[derive(Clone, Copy, Debug, PartialEq, Eq, Structural)]
pub enum WindowCommand {
    /// Hide the panel.
    Hide,
    /// Move the panel to `position` when there is one, show it and focus it.
    Show { position: Option<Position> },
    /// Leave the panel as it is.
    Keep,
}

/// The panel's visibility and whether it is pinned.
#[derive(Clone, Copy, Debug, PartialEq, Eq, Structural)]
pub struct PanelState {
    pub visibility: Visibility,
    pub pinned: bool,
}

/// The top-right anchor: the panel's right edge one margin from the display's
/// right edge, its top one top margin from the display's top.
pub open spec fn anchor_of(p: Placement) -> Position {
    Position {
        x: (p.screen_width as int - p.window_width as int - p.margin as int) as i64,
        y: p.top_margin as i64,
    }
}

pub open spec fn placed(p: Option<Placement>) -> Option<Position> {
    match p {
        Some(q) => Some(anchor_of(q)),
        None => None,
    }
}

pub open spec fn show_step(s: PanelState, p: Option<Placement>) -> (PanelState, WindowCommand) {
    (PanelState { visibility: Visibility::Visible, pinned: s.pinned }, WindowCommand::Show { position: placed(p) })
}

pub open spec fn toggle_step(s: PanelState, p: Option<Placement>) -> (PanelState, WindowCommand) {
    match s.visibility {
        Visibility::Visible => (PanelState { visibility: Visibility::Hidden, pinned: s.pinned }, WindowCommand::Hide),
        Visibility::Hidden => show_step(s, p),
    }
}

pub open spec fn focus_step(s: PanelState, focused: bool) -> (PanelState, WindowCommand) {
    if !focused && !s.pinned {
        (PanelState { visibility: Visibility::Hidden, pinned: s.pinned }, WindowCommand::Hide)
    } else {
        (s, WindowCommand::Keep)
    }
}

fn anchor(p: Placement) -> (r: Position)
    ensures
        r == anchor_of(p),
{
    Position { x: p.screen_width as i64 - p.window_width as i64 - p.margin as i64, y: p.top_margin as i64 }
}

/// Decides the panel's transitions; the toolkit carries out the commands.
pub struct VisibilityController {
    state: PanelState,
}

impl View for VisibilityController {
    type V = PanelState;

    closed spec fn view(&self) -> PanelState {
        self.state
    }
}

impl VisibilityController {
    /// A hidden, unpinned panel.
    pub fn new() -> (r: Self)
        ensures
            r@ == (PanelState { visibility: Visibility::Hidden, pinned: false }),
    {
        VisibilityController { state: PanelState { visibility: Visibility::Hidden, pinned: false } }
    }

    pub fn state(&self) -> (r: PanelState)
        ensures
            r == self@,
    {
        self.state
    }

    /// Takes over the visibility that the toolkit reports for the panel.
    pub fn sync(&mut self, visible: bool)
        ensures
            final(self)@ == (PanelState {
                visibility: if visible { Visibility::Visible } else { Visibility::Hidden },
                pinned: old(self)@.pinned,
            }),
    {
        self.state.visibility = if visible { Visibility::Visible } else { Visibility::Hidden };
    }

    /// Shows the panel, placed at its anchor when the display is known; again
    /// when it is already visible.
    pub fn show(&mut self, placement: Option<Placement>) -> (r: WindowCommand)
        ensures
            (final(self)@, r) == show_step(old(self)@, placement),
    {
        let position = match placement {
            Some(p) => Some(anchor(p)),
            None => None,
        };
        self.state.visibility = Visibility::Visible;
        WindowCommand::Show { position }
    }

    /// Hides a visible panel and shows a hidden one.
    pub fn toggle(&mut self, placement: Option<Placement>) -> (r: WindowCommand)
        ensures
            (final(self)@, r) == toggle_step(old(self)@, placement),
            old(self)@.visibility == Visibility::Visible ==> final(self)@.visibility == Visibility::Hidden,
            old(self)@.visibility == Visibility::Hidden ==> final(self)@.visibility == Visibility::Visible,
    {
        match self.state.visibility {
            Visibility::Visible => {
                self.state.visibility = Visibility::Hidden;
                WindowCommand::Hide
            },
            Visibility::Hidden => self.show(placement),
        }
    }

    /// Handles a change of input focus: losing it hides the panel unless it is
    /// pinned; a pinned panel stays as it is.
    pub fn on_focus_changed(&mut self, focused: bool) -> (r: WindowCommand)
        ensures
            (final(self)@, r) == focus_step(old(self)@, focused),
            old(self)@.pinned ==> final(self)@ == old(self)@ && r == WindowCommand::Keep,
            !focused && !old(self)@.pinned ==> final(self)@.visibility == Visibility::Hidden && r
                == WindowCommand::Hide,
    {
        if !focused && !self.state.pinned {
            self.state.visibility = Visibility::Hidden;
            WindowCommand::Hide
        } else {
            WindowCommand::Keep
        }
    }

    pub fn set_pinned(&mut self, pinned: bool)
        ensures
            final(self)@ == (PanelState { visibility: old(self)@.visibility, pinned }),
    {
        self.state.pinned = pinned;
    }

    pub fn get_pinned(&self) -> (r: bool)
        ensures
            r == self@.pinned,
    {
        self.state.pinned
    }
}

/// Toggling twice brings the panel back to the visibility it started from.
pub proof fn lemma_toggle_twice_restores(s: PanelState, p: Option<Placement>, q: Option<Placement>)
    ensures
        toggle_step(toggle_step(s, p).0, q).0 == s,
{
}

/// Showing an already visible panel keeps it visible and places it again, at
/// the same anchor for the same placement.
pub proof fn lemma_show_twice(s: PanelState, p: Option<Placement>)
    ensures
        ({
            let (s1, c1) = show_step(s, p);
            let (s2, c2) = show_step(s1, p);
            &&& s2 == s1
            &&& s2.visibility == Visibility::Visible
            &&& c2 == c1
            &&& c2 == WindowCommand::Show { position: placed(p) }
        }),
{
}

} // verus!
