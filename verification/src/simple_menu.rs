//! A single-screen menu: one highlighted entry cycling through a closed
//! option set.
use vstd::prelude::*;

verus! {

/// An entry of the menu.
#[derive(Debug, Default, PartialEq, Eq, Structural, Clone, Copy)]
pub enum SelectedOption {
    #[default]
    NewGame,
    Options,
    Exit,
}

/// The menu's state: the highlighted entry.
#[derive(Debug, Clone, Copy)]
pub struct Menu {
    pub selected_option: SelectedOption,
}

impl SelectedOption {
    /// The entry after this one, wrapping around.
    pub open spec fn next_spec(self) -> SelectedOption {
        match self {
            SelectedOption::NewGame => SelectedOption::Options,
            SelectedOption::Options => SelectedOption::Exit,
            SelectedOption::Exit => SelectedOption::NewGame,
        }
    }

    /// The entry before this one, wrapping around.
    pub open spec fn previous_spec(self) -> SelectedOption {
        match self {
            SelectedOption::NewGame => SelectedOption::Exit,
            SelectedOption::Options => SelectedOption::NewGame,
            SelectedOption::Exit => SelectedOption::Options,
        }
    }

    /// The caption this entry shows.
    pub open spec fn menu_text_spec(self) -> Seq<char> {
        match self {
            SelectedOption::NewGame => "New Game"@,
            SelectedOption::Options => "Options"@,
            SelectedOption::Exit => "Exit"@,
        }
    }

    /// All entries, in display order.
    pub fn all_possibilities() -> (r: Vec<SelectedOption>)
        ensures
            r@ == seq![SelectedOption::NewGame, SelectedOption::Options, SelectedOption::Exit],
    {
        let mut r: Vec<SelectedOption> = Vec::new();
        r.push(SelectedOption::NewGame);
        r.push(SelectedOption::Options);
        r.push(SelectedOption::Exit);
        proof {
            assert(r@ =~= seq![
                SelectedOption::NewGame,
                SelectedOption::Options,
                SelectedOption::Exit,
            ]);
        }
        r
    }

    /// Moves the selection one entry down, wrapping around.
    pub fn next_selection(&mut self)
        ensures
            *final(self) == old(self).next_spec(),
    {
        *self = match *self {
            SelectedOption::NewGame => SelectedOption::Options,
            SelectedOption::Options => SelectedOption::Exit,
            SelectedOption::Exit => SelectedOption::NewGame,
        };
    }

    /// Moves the selection one entry up, wrapping around.
    pub fn previous_selection(&mut self)
        ensures
            *final(self) == old(self).previous_spec(),
    {
        *self = match *self {
            SelectedOption::NewGame => SelectedOption::Exit,
            SelectedOption::Options => SelectedOption::NewGame,
            SelectedOption::Exit => SelectedOption::Options,
        };
    }

    /// The caption this entry shows.
    pub fn menu_text(&self) -> (r: &str)
        ensures
            r@ == self.menu_text_spec(),
    {
        match self {
            SelectedOption::NewGame => "New Game",
            SelectedOption::Options => "Options",
            SelectedOption::Exit => "Exit",
        }
    }
}

impl Menu {
    /// A fresh menu with the first entry highlighted.
    pub fn new() -> (r: Menu)
        ensures
            r.selected_option == SelectedOption::NewGame,
    {
        Menu { selected_option: SelectedOption::NewGame }
    }

    /// Menus have no time-dependent behaviour; ticks leave them as they
    /// are.
    pub fn update(&mut self, _now: u64)
        ensures
            *final(self) == *old(self),
    {
    }

    /// The highlighted entry.
    pub fn selected_option(&self) -> (r: SelectedOption)
        ensures
            r == self.selected_option,
    {
        self.selected_option
    }

    /// Moves the highlight one entry down, wrapping around.
    pub fn select_next_option(&mut self)
        ensures
            *final(self) == (Menu { selected_option: old(self).selected_option.next_spec() }),
    {
        self.selected_option.next_selection();
    }

    /// Moves the highlight one entry up, wrapping around.
    pub fn select_previous_option(&mut self)
        ensures
            *final(self) == (Menu { selected_option: old(self).selected_option.previous_spec() }),
    {
        self.selected_option.previous_selection();
    }
}

} // verus!
