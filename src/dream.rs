use vstd::prelude::*;

verus! {

/// How strongly a dream was felt.
#[derive(Clone, Copy, Debug, PartialEq, Eq, Structural)]
pub enum Intensity {
    Low,
    Medium,
    High,
}

/// Number of intensity options offered by the entry wizard.
pub const INTENSITY_COUNT: usize = 3;

impl Intensity {
    /// Position of this value in the ordered option list.
    pub open spec fn spec_index(self) -> int {
        match self {
            Intensity::Low => 0,
            Intensity::Medium => 1,
            Intensity::High => 2,
        }
    }

    /// The option at a position of the ordered option list.
    pub open spec fn spec_from_index(i: int) -> Intensity {
        if i == 0 {
            Intensity::Low
        } else if i == 1 {
            Intensity::Medium
        } else {
            Intensity::High
        }
    }

    pub open spec fn spec_label(self) -> Seq<char> {
        match self {
            Intensity::Low => "Low"@,
            Intensity::Medium => "Medium"@,
            Intensity::High => "High"@,
        }
    }

    pub fn index(&self) -> (r: usize)
        ensures
            r == self.spec_index(),
            r < INTENSITY_COUNT,
    {
        match self {
            Intensity::Low => 0,
            Intensity::Medium => 1,
            Intensity::High => 2,
        }
    }

    pub fn from_index(i: usize) -> (r: Intensity)
        requires
            i < INTENSITY_COUNT,
        ensures
            r == Intensity::spec_from_index(i as int),
            r.spec_index() == i,
    {
        if i == 0 {
            Intensity::Low
        } else if i == 1 {
            Intensity::Medium
        } else {
            Intensity::High
        }
    }

    /// The name shown to the user.
    pub fn to_string(&self) -> (r: String)
        ensures
            r@ == self.spec_label(),
    {
        match self {
            Intensity::Low => String::from_str("Low"),
            Intensity::Medium => String::from_str("Medium"),
            Intensity::High => String::from_str("High"),
        }
    }
}

/// The kind of a dream.
#[derive(Clone, Copy, Debug, PartialEq, Eq, Structural)]
pub enum Style {
    Lucid,
    Nightmare,
    Recurring,
    Prophetic,
    Normal,
}

/// Number of style options offered by the entry wizard.
pub const STYLE_COUNT: usize = 5;

impl Style {
    /// Position of this value in the ordered option list.
    pub open spec fn spec_index(self) -> int {
        match self {
            Style::Lucid => 0,
            Style::Nightmare => 1,
            Style::Recurring => 2,
            Style::Prophetic => 3,
            Style::Normal => 4,
        }
    }

    /// The option at a position of the ordered option list.
    pub open spec fn spec_from_index(i: int) -> Style {
        if i == 0 {
            Style::Lucid
        } else if i == 1 {
            Style::Nightmare
        } else if i == 2 {
            Style::Recurring
        } else if i == 3 {
            Style::Prophetic
        } else {
            Style::Normal
        }
    }

    pub open spec fn spec_label(self) -> Seq<char> {
        match self {
            Style::Lucid => "Lucid"@,
            Style::Nightmare => "Nightmare"@,
            Style::Recurring => "Recurring"@,
            Style::Prophetic => "Prophetic"@,
            Style::Normal => "Normal"@,
        }
    }

    pub fn index(&self) -> (r: usize)
        ensures
            r == self.spec_index(),
            r < STYLE_COUNT,
    {
        match self {
            Style::Lucid => 0,
            Style::Nightmare => 1,
            Style::Recurring => 2,
            Style::Prophetic => 3,
            Style::Normal => 4,
        }
    }

    pub fn from_index(i: usize) -> (r: Style)
        requires
            i < STYLE_COUNT,
        ensures
            r == Style::spec_from_index(i as int),
            r.spec_index() == i,
    {
        if i == 0 {
            Style::Lucid
        } else if i == 1 {
            Style::Nightmare
        } else if i == 2 {
            Style::Recurring
        } else if i == 3 {
            Style::Prophetic
        } else {
            Style::Normal
        }
    }

    /// The name shown to the user.
    pub fn to_string(&self) -> (r: String)
        ensures
            r@ == self.spec_label(),
    {
        match self {
            Style::Lucid => String::from_str("Lucid"),
            Style::Nightmare => String::from_str("Nightmare"),
            Style::Recurring => String::from_str("Recurring"),
            Style::Prophetic => String::from_str("Prophetic"),
            Style::Normal => String::from_str("Normal"),
        }
    }
}

/// One journal entry.
#[derive(Clone, Debug)]
pub struct Dream {
    pub date: String,
    pub intensity: Intensity,
    pub experience: String,
    pub frequency: u8,
    pub style: Style,
}

/// The mathematical value of a `Dream`: its strings as character sequences.
pub struct DreamView {
    pub date: Seq<char>,
    pub intensity: Intensity,
    pub experience: Seq<char>,
    pub frequency: int,
    pub style: Style,
}

impl View for Dream {
    type V = DreamView;

    open spec fn view(&self) -> DreamView {
        DreamView {
            date: self.date@,
            intensity: self.intensity,
            experience: self.experience@,
            frequency: self.frequency as int,
            style: self.style,
        }
    }
}

impl Dream {
    /// A fresh entry as the wizard starts it: the given date, the first option of each
    /// list, frequency zero and no text.
    pub open spec fn spec_blank(date: Seq<char>) -> DreamView {
        DreamView {
            date,
            intensity: Intensity::Low,
            experience: Seq::empty(),
            frequency: 0,
            style: Style::Lucid,
        }
    }

    pub fn blank(date: &str) -> (r: Dream)
        ensures
            r@ == Dream::spec_blank(date@),
    {
        let r = Dream {
            date: String::from_str(date),
            intensity: Intensity::Low,
            experience: String::new(),
            frequency: 0,
            style: Style::Lucid,
        };
        assert(r@.experience =~= Seq::<char>::empty());
        r
    }

    /// An independent copy with the same value.
    pub fn duplicate(&self) -> (r: Dream)
        ensures
            r@ == self@,
    {
        Dream {
            date: self.date.clone(),
            intensity: self.intensity,
            experience: self.experience.clone(),
            frequency: self.frequency,
            style: self.style,
        }
    }
}

} // verus!
