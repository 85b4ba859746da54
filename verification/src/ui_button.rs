//! How a button answers to the pointer: its colours, and whether it counts
//! as clicked.

use vstd::prelude::*;

verus! {

/// What the pointer does to a button.
#[derive(Clone, Copy, Debug, PartialEq, Eq, Hash, Structural)]
pub enum Interaction {
    Pressed,
    Hovered,
    Idle,
}

/// A shade of the gray palette, a higher number being darker.
#[derive(Clone, Copy, Debug, PartialEq, Eq, Hash, Structural)]
pub enum Gray {
    Gray300,
    Gray400,
    Gray500,
    Gray700,
    Gray800,
    Gray900,
}

/// The click of a button: it names the entity of the button.
#[derive(Clone, Copy, Debug, PartialEq, Eq, Hash, Structural)]
pub struct ButtonClicked(pub u64);

/// What a change of interaction does to a button.
#[derive(Clone, Copy, Debug, PartialEq, Eq, Hash, Structural)]
pub struct ButtonFeedback {
    /// The new colour of the border.
    pub border: Gray,
    /// The new colour of the background.
    pub background: Gray,
    /// The click to send to the button's observers, if the button was
    /// pressed.
    pub clicked: Option<ButtonClicked>,
}

impl From<u64> for ButtonClicked {
    fn from(entity: u64) -> (clicked: ButtonClicked)
        ensures
            clicked == ButtonClicked(entity),
    {
        ButtonClicked(entity)
    }
}

impl vstd::std_specs::convert::FromSpecImpl<u64> for ButtonClicked {
    open spec fn obeys_from_spec() -> bool {
        true
    }

    open spec fn from_spec(entity: u64) -> ButtonClicked {
        ButtonClicked(entity)
    }
}

/// The feedback for an interaction with the button `entity`: a pressed
/// button takes the lightest border and sends a click, a hovered one is a
/// shade darker, and an untouched one shows the resting colours.
pub open spec fn feedback(entity: u64, interaction: Interaction) -> ButtonFeedback {
    match interaction {
        Interaction::Pressed => ButtonFeedback {
            border: Gray::Gray300,
            background: Gray::Gray700,
            clicked: Some(ButtonClicked(entity)),
        },
        Interaction::Hovered => ButtonFeedback {
            border: Gray::Gray400,
            background: Gray::Gray800,
            clicked: None,
        },
        Interaction::Idle => ButtonFeedback {
            border: Gray::Gray500,
            background: Gray::Gray900,
            clicked: None,
        },
    }
}

/// Answers a changed interaction of the button `entity`.
pub fn button_interaction_event(entity: u64, interaction: Interaction) -> (answer: ButtonFeedback)
    ensures
        answer == feedback(entity, interaction),
{
    match interaction {
        Interaction::Pressed => ButtonFeedback {
            border: Gray::Gray300,
            background: Gray::Gray700,
            clicked: Some(ButtonClicked(entity)),
        },
        Interaction::Hovered => ButtonFeedback {
            border: Gray::Gray400,
            background: Gray::Gray800,
            clicked: None,
        },
        Interaction::Idle => ButtonFeedback {
            border: Gray::Gray500,
            background: Gray::Gray900,
            clicked: None,
        },
    }
}

} // verus!
