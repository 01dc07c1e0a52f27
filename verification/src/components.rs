//! Behaviour shared by the interface's components, and the variants of the
//! text input that the storybook shows.

use vstd::prelude::*;
use crate::messages::CmdOrBatch;
use crate::text_input::{TextInputArea, TEXT_INPUT_AREA_MIN_HEIGHT};

verus! {

/// A component that keeps its own state and answers its sub-messages with
/// commands.
pub trait Component<State, SubMsg, SubCmd> {
    /// Handles a sub-message and updates the component's state.
    fn update(&mut self, msg: SubMsg, state: &State) -> CmdOrBatch<SubCmd>;

    /// Whether the component has focus.
    fn is_focused(&self) -> bool;

    /// Gives or takes focus.
    fn set_focus(&mut self, focused: bool);
}

/// A component that can have focus.
pub trait Focusable {
    fn is_focused(&self) -> bool;

    fn set_focus(&mut self, focused: bool);
}

/// A component whose size follows its content.
pub trait DynamicSize {
    fn get_height(&self) -> u16;

    fn get_width(&self) -> u16;
}

/// A component that can be emptied.
pub trait Clearable {
    fn clear(&mut self);
}

impl Focusable for TextInputArea {
    fn is_focused(&self) -> (b: bool)
        ensures
            b == self.focused_view(),
    {
        TextInputArea::is_focused(self)
    }

    fn set_focus(&mut self, focused: bool)
        ensures
            final(self).focused_view() == focused,
            final(self).lines_view() == old(self).lines_view(),
            final(self).height_view() == old(self).height_view(),
            final(self).placeholder_view() == old(self).placeholder_view(),
            final(self).wf() == old(self).wf(),
    {
        TextInputArea::set_focus(self, focused)
    }
}

impl Clearable for TextInputArea {
    fn clear(&mut self)
        ensures
            final(self).lines_view() == seq![Seq::<char>::empty()],
            final(self).height_view() == old(self).min_view(),
            final(self).focused_view() == old(self).focused_view(),
            final(self).placeholder_view() == old(self).placeholder_view(),
            final(self).wf() == old(self).wf(),
    {
        TextInputArea::clear(self)
    }
}

/// A state of the text input that the storybook shows.
#[derive(Debug, Clone, Copy, PartialEq, Eq, Structural)]
pub enum StoryVariant {
    Empty,
    WithPlaceholder,
    Focused,
    WithContent,
}

/// The name a variant is listed under.
pub open spec fn story_variant_name(v: StoryVariant) -> Seq<char> {
    match v {
        StoryVariant::Empty => "Empty"@,
        StoryVariant::WithPlaceholder => "With Placeholder"@,
        StoryVariant::Focused => "Focused"@,
        StoryVariant::WithContent => "With Content"@,
    }
}

impl StoryVariant {
    /// The name the variant is listed under.
    pub fn name(&self) -> (r: &'static str)
        ensures
            r@ == story_variant_name(*self),
    {
        match self {
            StoryVariant::Empty => "Empty",
            StoryVariant::WithPlaceholder => "With Placeholder",
            StoryVariant::Focused => "Focused",
            StoryVariant::WithContent => "With Content",
        }
    }

    /// All variants, in the order the storybook lists them.
    pub fn all() -> (r: Vec<StoryVariant>)
        ensures
            r@ == seq![
                StoryVariant::Empty,
                StoryVariant::WithPlaceholder,
                StoryVariant::Focused,
                StoryVariant::WithContent,
            ],
    {
        vec![
            StoryVariant::Empty,
            StoryVariant::WithPlaceholder,
            StoryVariant::Focused,
            StoryVariant::WithContent,
        ]
    }

    /// The freshly made input that the variant shows, or `None` for the
    /// variant that shows the story's own, long-lived input.
    pub fn fresh_input(&self) -> (r: Option<TextInputArea>)
        ensures
            match *self {
                StoryVariant::WithContent => r is None,
                _ => r is Some,
            },
            r matches Some(t) ==> {
                &&& t.wf()
                &&& t.lines_view() == seq![Seq::<char>::empty()]
                &&& t.height_view() == TEXT_INPUT_AREA_MIN_HEIGHT
                &&& t.focused_view() == (*self == StoryVariant::Focused)
                &&& t.placeholder_view() == match *self {
                    StoryVariant::Empty => "Type your message..."@,
                    StoryVariant::WithPlaceholder => "Enter your message..."@,
                    _ => "Focused input"@,
                }
            },
    {
        match self {
            StoryVariant::Empty => Some(TextInputArea::new()),
            StoryVariant::WithPlaceholder => Some(TextInputArea::with_placeholder("Enter your message...")),
            StoryVariant::Focused => {
                let mut component = TextInputArea::with_placeholder("Focused input");
                component.set_focus(true);
                Some(component)
            },
            StoryVariant::WithContent => None,
        }
    }
}

/// The input that the story keeps across frames.
pub fn story_input() -> (r: TextInputArea)
    ensures
        r.wf(),
        r.lines_view() == seq![Seq::<char>::empty()],
        r.placeholder_view() == "Storybook Demo - Type here..."@,
        !r.focused_view(),
{
    TextInputArea::with_placeholder("Storybook Demo - Type here...")
}

} // verus!
