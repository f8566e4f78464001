//! The buttons of the menus: when a pointer gesture counts as a click.

use vstd::prelude::*;

verus! {

/// What the pointer does to a button.
#[derive(Clone, Copy, Debug, PartialEq, Eq)]
pub enum Interaction {
    /// The button is held down.
    Pressed,
    /// The pointer rests on the button.
    Hovered,
    /// The pointer is elsewhere.
    Away,
}

/// Remembers that the play button was pressed and not yet left.
#[derive(Clone, Copy, Debug, PartialEq, Eq)]
pub struct PlayClicked {
    pub value: bool,
}

impl Default for PlayClicked {
    fn default() -> (clicked: PlayClicked)
        ensures
            !clicked.value,
    {
        PlayClicked { value: false }
    }
}

/// Remembers that the restart button was pressed and not yet left.
#[derive(Clone, Copy, Debug, PartialEq, Eq)]
pub struct RestartClicked {
    pub value: bool,
}

impl Default for RestartClicked {
    fn default() -> (clicked: RestartClicked)
        ensures
            !clicked.value,
    {
        RestartClicked { value: false }
    }
}

/// What a button that starts play remembers after an interaction: a press
/// arms it, the pointer going away disarms it, hovering changes nothing.
pub open spec fn armed_after(armed: bool, interaction: Interaction) -> bool {
    match interaction {
        Interaction::Pressed => true,
        Interaction::Hovered => armed,
        Interaction::Away => false,
    }
}

/// A button that starts play fires when the pointer, having pressed it, is
/// released on it: when it hovers over the armed button.
pub open spec fn fires(armed: bool, interaction: Interaction) -> bool {
    armed && interaction == Interaction::Hovered
}

/// The memory of a play button that appears.
pub fn insert_play_clicked() -> (clicked: PlayClicked)
    ensures
        !clicked.value,
{
    PlayClicked { value: false }
}

/// The memory of a restart button that appears.
pub fn insert_restart_clicked() -> (clicked: RestartClicked)
    ensures
        !clicked.value,
{
    RestartClicked { value: false }
}

/// Handles an interaction with the play button. Tells whether play is asked
/// for.
pub fn interact_with_play_button(clicked: &mut PlayClicked, interaction: Interaction) -> (start:
    bool)
    ensures
        start == fires(old(clicked).value, interaction),
        final(clicked).value == armed_after(old(clicked).value, interaction),
{
    match interaction {
        Interaction::Pressed => {
            clicked.value = true;
            false
        },
        Interaction::Hovered => clicked.value,
        Interaction::Away => {
            clicked.value = false;
            false
        },
    }
}

/// Handles an interaction with the restart button. Tells whether play is
/// asked for.
pub fn interact_with_restart_button(clicked: &mut RestartClicked, interaction: Interaction) -> (start:
    bool)
    ensures
        start == fires(old(clicked).value, interaction),
        final(clicked).value == armed_after(old(clicked).value, interaction),
{
    match interaction {
        Interaction::Pressed => {
            clicked.value = true;
            false
        },
        Interaction::Hovered => clicked.value,
        Interaction::Away => {
            clicked.value = false;
            false
        },
    }
}

/// Handles an interaction with the button that leads to the menu. Tells
/// whether the menu is asked for: as soon as the button is pressed.
pub fn interact_with_main_menu_button(interaction: Interaction) -> (menu: bool)
    ensures
        menu == (interaction == Interaction::Pressed),
{
    match interaction {
        Interaction::Pressed => true,
        Interaction::Hovered | Interaction::Away => false,
    }
}

/// Handles an interaction with a quit button. Tells whether the program is
/// asked to end: as soon as the button is pressed.
pub fn interact_with_quit_button(interaction: Interaction) -> (quit: bool)
    ensures
        quit == (interaction == Interaction::Pressed),
{
    match interaction {
        Interaction::Pressed => true,
        Interaction::Hovered | Interaction::Away => false,
    }
}

/// A press followed by a release on the button is a click; a press that
/// slides off the button before the release is none.
pub proof fn lemma_click(armed: bool)
    ensures
        fires(armed_after(armed, Interaction::Pressed), Interaction::Hovered),
        !fires(
            armed_after(armed_after(armed, Interaction::Pressed), Interaction::Away),
            Interaction::Hovered,
        ),
{
}

} // verus!
