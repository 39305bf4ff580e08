//! Developer tools: the state of the developer panels that can be put around an element.

use vstd::prelude::*;

verus! {

/// The part of the developer view that has the focus.
#[derive(Debug, Clone, Copy, PartialEq, Eq, Structural)]
pub enum Focus {
    /// The panel at the right.
    RightDev,
    /// The panel at the bottom.
    BottomDev,
    /// The element itself.
    Element,
}

impl Focus {
    /// The part that has the focus after this one: the panel at the bottom after the
    /// panel at the right, the element after the panel at the bottom, and the panel at
    /// the right after the element.
    pub open spec fn next(self) -> Focus {
        match self {
            Focus::RightDev => Focus::BottomDev,
            Focus::BottomDev => Focus::Element,
            Focus::Element => Focus::RightDev,
        }
    }

    /// The part that has the focus before this one.
    pub open spec fn previous(self) -> Focus {
        match self {
            Focus::RightDev => Focus::Element,
            Focus::BottomDev => Focus::RightDev,
            Focus::Element => Focus::BottomDev,
        }
    }

    /// The part that gets the focus when the tab key is pressed: the next part, or the
    /// part before where the tab goes back.
    pub fn tab(self, back: bool) -> (focus: Focus)
        ensures
            focus == (if back {
                self.previous()
            } else {
                self.next()
            }),
    {
        if back {
            match self {
                Self::RightDev => Self::Element,
                Self::BottomDev => Self::RightDev,
                Self::Element => Self::BottomDev,
            }
        } else {
            match self {
                Self::RightDev => Self::BottomDev,
                Self::BottomDev => Self::Element,
                Self::Element => Self::RightDev,
            }
        }
    }
}

/// The text that `String::from_utf8_lossy` of std makes of bytes.
pub uninterp spec fn utf8_lossy(bytes: Seq<u8>) -> Seq<char>;

/// `String::from_utf8_lossy` of std: the bytes as text, with a replacement character in
/// place of whatever is no UTF-8.
#[verifier::external_body]
fn text_of(bytes: &Vec<u8>) -> (text: String)
    ensures
        text@ == utf8_lossy(bytes@),
{
    String::from_utf8_lossy(bytes).into_owned()
}

/// What an event of the developer tools asks for.
#[derive(Debug)]
pub enum EventKind {
    /// Give the focus to a part of the developer view.
    Focus(Focus),
    /// Show the question whether to abort, or take it away.
    ToggleAbortConfirm,
    /// Resize the panel at the right, the panel at the bottom, or both.
    Resize(Option<u16>, Option<u16>),
    /// Start to resize the panel at the right.
    SetRightPanelResizing,
    /// Start to resize the panel at the bottom.
    SetBottomPanelResizing,
    /// Stop resizing.
    StopResizing,
    /// Bytes that were captured from the standard output.
    CapturedData(Vec<u8>),
}

/// An event of the developer tools.
#[derive(Debug)]
pub struct Event(pub EventKind);

/// An event of an application with developer tools.
#[derive(Debug)]
pub enum AppEvent<T> {
    /// An event of the developer tools: give it to [`Dev::apply`].
    Dev(Event),
    /// An event of the element.
    Element(T),
}

impl<T> vstd::std_specs::convert::FromSpecImpl<EventKind> for AppEvent<T> {
    open spec fn obeys_from_spec() -> bool {
        true
    }

    open spec fn from_spec(kind: EventKind) -> Self {
        AppEvent::Dev(Event(kind))
    }
}

impl<T> From<EventKind> for AppEvent<T> {
    /// The event of the developer tools that asks for `kind`.
    fn from(kind: EventKind) -> (event: Self) {
        Self::Dev(Event(kind))
    }
}

/// The narrowest that the panel at the right can be made.
pub open spec fn min_right_panel_width() -> u16 {
    32
}

/// The lowest that the panel at the bottom can be made.
pub open spec fn min_bottom_panel_height() -> u16 {
    8
}

/// The state of the developer tools.
#[derive(Debug)]
pub struct Dev {
    /// The part that has the focus.
    pub focus: Focus,
    /// The width of the panel at the right.
    pub right_panel_width: u16,
    /// Whether the panel at the right is being resized.
    pub right_panel_resizing: bool,
    /// The height of the panel at the bottom.
    pub bottom_panel_height: u16,
    /// Whether the panel at the bottom is being resized.
    pub bottom_panel_resizing: bool,
    /// Whether the question whether to abort is shown.
    pub abort_confirm: bool,
    /// The text that was captured from the standard output.
    pub captured: String,
}

/// The state of the developer tools, as a mathematical value.
pub struct DevView {
    /// The part that has the focus.
    pub focus: Focus,
    /// The width of the panel at the right.
    pub right_panel_width: u16,
    /// Whether the panel at the right is being resized.
    pub right_panel_resizing: bool,
    /// The height of the panel at the bottom.
    pub bottom_panel_height: u16,
    /// Whether the panel at the bottom is being resized.
    pub bottom_panel_resizing: bool,
    /// Whether the question whether to abort is shown.
    pub abort_confirm: bool,
    /// The text that was captured from the standard output.
    pub captured: Seq<char>,
}

/// What an event of the developer tools asks for, as a mathematical value.
pub enum EventKindView {
    /// Give the focus to a part of the developer view.
    Focus(Focus),
    /// Show the question whether to abort, or take it away.
    ToggleAbortConfirm,
    /// Resize the panel at the right, the panel at the bottom, or both.
    Resize(Option<u16>, Option<u16>),
    /// Start to resize the panel at the right.
    SetRightPanelResizing,
    /// Start to resize the panel at the bottom.
    SetBottomPanelResizing,
    /// Stop resizing.
    StopResizing,
    /// Bytes that were captured from the standard output.
    CapturedData(Seq<u8>),
}

impl View for EventKind {
    type V = EventKindView;

    open spec fn view(&self) -> EventKindView {
        match *self {
            EventKind::Focus(focus) => EventKindView::Focus(focus),
            EventKind::ToggleAbortConfirm => EventKindView::ToggleAbortConfirm,
            EventKind::Resize(right, bottom) => EventKindView::Resize(right, bottom),
            EventKind::SetRightPanelResizing => EventKindView::SetRightPanelResizing,
            EventKind::SetBottomPanelResizing => EventKindView::SetBottomPanelResizing,
            EventKind::StopResizing => EventKindView::StopResizing,
            EventKind::CapturedData(bytes) => EventKindView::CapturedData(bytes@),
        }
    }
}

impl DevView {
    /// The state after an event.
    ///
    /// A panel is made as large as the event asks for, and no smaller than its smallest
    /// size. Captured bytes are added, as text, to the text that was captured before.
    pub open spec fn applied(self, event: EventKindView) -> DevView {
        match event {
            EventKindView::Focus(focus) => DevView { focus, ..self },
            EventKindView::ToggleAbortConfirm => DevView {
                abort_confirm: !self.abort_confirm,
                ..self
            },
            EventKindView::Resize(right, bottom) => DevView {
                right_panel_width: match right {
                    Some(width) => if width > min_right_panel_width() {
                        width
                    } else {
                        min_right_panel_width()
                    },
                    None => self.right_panel_width,
                },
                bottom_panel_height: match bottom {
                    Some(height) => if height > min_bottom_panel_height() {
                        height
                    } else {
                        min_bottom_panel_height()
                    },
                    None => self.bottom_panel_height,
                },
                ..self
            },
            EventKindView::SetRightPanelResizing => DevView { right_panel_resizing: true, ..self },
            EventKindView::SetBottomPanelResizing => DevView { bottom_panel_resizing: true, ..self },
            EventKindView::StopResizing => DevView {
                right_panel_resizing: false,
                bottom_panel_resizing: false,
                ..self
            },
            EventKindView::CapturedData(bytes) => DevView {
                captured: self.captured + utf8_lossy(bytes),
                ..self
            },
        }
    }
}

impl View for Dev {
    type V = DevView;

    open spec fn view(&self) -> DevView {
        DevView {
            focus: self.focus,
            right_panel_width: self.right_panel_width,
            right_panel_resizing: self.right_panel_resizing,
            bottom_panel_height: self.bottom_panel_height,
            bottom_panel_resizing: self.bottom_panel_resizing,
            abort_confirm: self.abort_confirm,
            captured: self.captured@,
        }
    }
}

impl Dev {
    /// Create the state of the developer tools: the element has the focus, the panel at
    /// the right is 64 columns wide and the panel at the bottom 16 rows high.
    #[must_use]
    pub fn new() -> (dev: Self)
        ensures
            dev@ == (DevView {
                focus: Focus::Element,
                right_panel_width: 64,
                right_panel_resizing: false,
                bottom_panel_height: 16,
                bottom_panel_resizing: false,
                abort_confirm: false,
                captured: Seq::empty(),
            }),
    {
        Self {
            focus: Focus::Element,
            right_panel_width: 64,
            right_panel_resizing: false,
            bottom_panel_height: 16,
            bottom_panel_resizing: false,
            abort_confirm: false,
            captured: String::new(),
        }
    }

    /// Apply an event to the state.
    pub fn apply(&mut self, event: Event)
        ensures
            final(self)@ == old(self)@.applied(event.0@),
    {
        match event.0 {
            EventKind::Focus(focus) => {
                self.focus = focus;
            },
            EventKind::ToggleAbortConfirm => {
                self.abort_confirm = !self.abort_confirm;
            },
            EventKind::Resize(right_panel, bottom_panel) => {
                match right_panel {
                    Some(width) => {
                        self.right_panel_width = if width > 32 {
                            width
                        } else {
                            32
                        };
                    },
                    None => {},
                }
                match bottom_panel {
                    Some(height) => {
                        self.bottom_panel_height = if height > 8 {
                            height
                        } else {
                            8
                        };
                    },
                    None => {},
                }
            },
            EventKind::SetRightPanelResizing => {
                self.right_panel_resizing = true;
            },
            EventKind::SetBottomPanelResizing => {
                self.bottom_panel_resizing = true;
            },
            EventKind::StopResizing => {
                self.right_panel_resizing = false;
                self.bottom_panel_resizing = false;
            },
            EventKind::CapturedData(bytes) => {
                let text = text_of(&bytes);
                vstd::string::StringExecFns::append(&mut self.captured, text.as_str());
            },
        }
    }
}

impl Default for Dev {
    /// The state of the developer tools at the start: see [`Dev::new`].
    fn default() -> (dev: Self)
        ensures
            dev@ == Dev::new_view(),
    {
        Self::new()
    }
}

impl Dev {
    /// The state that [`Dev::new`] gives.
    pub open spec fn new_view() -> DevView {
        DevView {
            focus: Focus::Element,
            right_panel_width: 64,
            right_panel_resizing: false,
            bottom_panel_height: 16,
            bottom_panel_resizing: false,
            abort_confirm: false,
            captured: Seq::empty(),
        }
    }
}

} // verus!
