//! The progress of a fetch as the front end shows it, and the fields of its forms.

use vstd::prelude::*;

verus! {

/// The field of the deadline form that has the focus.
#[derive(Debug, Clone, Copy, PartialEq, Eq, Structural)]
pub enum DeadlineField {
    Date,
    Time,
}

/// The field of the late-grading form that has the focus.
#[derive(Debug, Clone, Copy, PartialEq, Eq, Structural)]
pub enum LateGradingField {
    OnTimeDate,
    OnTimeTime,
    LateDate,
    LateTime,
    Penalty,
}

impl DeadlineField {
    /// The field that the focus moves to: the other one.
    pub open spec fn following(self) -> DeadlineField {
        match self {
            DeadlineField::Date => DeadlineField::Time,
            DeadlineField::Time => DeadlineField::Date,
        }
    }

    /// The greatest length of what is typed into the field: ten for a date
    /// `YYYY-MM-DD`, five for a time `HH:MM`.
    pub open spec fn capacity(self) -> nat {
        match self {
            DeadlineField::Date => 10,
            DeadlineField::Time => 5,
        }
    }

    /// Moves the focus on.
    pub fn next(self) -> (field: DeadlineField)
        ensures
            field == self.following(),
            field.following() == self,
    {
        match self {
            DeadlineField::Date => DeadlineField::Time,
            DeadlineField::Time => DeadlineField::Date,
        }
    }

    /// The greatest length of what is typed into the field.
    pub fn limit(self) -> (n: usize)
        ensures
            n == self.capacity(),
    {
        match self {
            DeadlineField::Date => 10,
            DeadlineField::Time => 5,
        }
    }
}

impl LateGradingField {
    /// The field that the focus moves to going forward; the first one follows
    /// the last.
    pub open spec fn following(self) -> LateGradingField {
        match self {
            LateGradingField::OnTimeDate => LateGradingField::OnTimeTime,
            LateGradingField::OnTimeTime => LateGradingField::LateDate,
            LateGradingField::LateDate => LateGradingField::LateTime,
            LateGradingField::LateTime => LateGradingField::Penalty,
            LateGradingField::Penalty => LateGradingField::OnTimeDate,
        }
    }

    /// The greatest length of what is typed into the field: ten for a date,
    /// five for a time and for the penalty.
    pub open spec fn capacity(self) -> nat {
        match self {
            LateGradingField::OnTimeDate => 10,
            LateGradingField::OnTimeTime => 5,
            LateGradingField::LateDate => 10,
            LateGradingField::LateTime => 5,
            LateGradingField::Penalty => 5,
        }
    }

    /// Moves the focus forward.
    pub fn next(self) -> (field: LateGradingField)
        ensures
            field == self.following(),
    {
        match self {
            LateGradingField::OnTimeDate => LateGradingField::OnTimeTime,
            LateGradingField::OnTimeTime => LateGradingField::LateDate,
            LateGradingField::LateDate => LateGradingField::LateTime,
            LateGradingField::LateTime => LateGradingField::Penalty,
            LateGradingField::Penalty => LateGradingField::OnTimeDate,
        }
    }

    /// Moves the focus backward: to the field that `self` follows.
    pub fn previous(self) -> (field: LateGradingField)
        ensures
            field.following() == self,
    {
        match self {
            LateGradingField::OnTimeDate => LateGradingField::Penalty,
            LateGradingField::OnTimeTime => LateGradingField::OnTimeDate,
            LateGradingField::LateDate => LateGradingField::OnTimeTime,
            LateGradingField::LateTime => LateGradingField::LateDate,
            LateGradingField::Penalty => LateGradingField::LateTime,
        }
    }

    /// The greatest length of what is typed into the field.
    pub fn limit(self) -> (n: usize)
        ensures
            n == self.capacity(),
    {
        match self {
            LateGradingField::OnTimeDate => 10,
            LateGradingField::OnTimeTime => 5,
            LateGradingField::LateDate => 10,
            LateGradingField::LateTime => 5,
            LateGradingField::Penalty => 5,
        }
    }
}

/// The entry of a list that is selected after a step up: the one before, and
/// the first stays.
pub fn select_previous(selected: usize) -> (r: usize)
    ensures
        r == if selected > 0 {
            selected - 1
        } else {
            0
        },
{
    if selected > 0 {
        selected - 1
    } else {
        0
    }
}

/// The entry of a list of `count` entries that is selected after a step down:
/// the one after, and the last stays.
pub fn select_next(selected: usize, count: usize) -> (r: usize)
    ensures
        r == if selected + 1 < count {
            selected + 1
        } else {
            selected as int
        },
{
    if count > 0 && selected < count - 1 {
        selected + 1
    } else {
        selected
    }
}

/// How far a fetch has come, with the status lines shown last.
#[derive(Debug, Clone)]
pub struct FetchProgress {
    pub total_students: usize,
    pub completed: usize,
    pub current_student: String,
    pub errors: usize,
    pub status_messages: Vec<String>,
}

/// The status lines after `message` is added to `lines`: it comes last, and
/// the oldest line leaves where there would be more than twenty.
pub open spec fn with_status(lines: Seq<String>, message: String) -> Seq<String> {
    if lines.len() + 1 > 20 {
        lines.push(message).drop_first()
    } else {
        lines.push(message)
    }
}

impl FetchProgress {
    /// The progress of a fetch over `total_students` students that has not begun.
    pub fn new(total_students: usize) -> (progress: Self)
        ensures
            progress.total_students == total_students,
            progress.completed == 0,
            progress.current_student@ == Seq::<char>::empty(),
            progress.errors == 0,
            progress.status_messages.len() == 1,
            progress.status_messages[0]@ == "Initializing..."@,
    {
        let mut status_messages: Vec<String> = Vec::new();
        status_messages.push("Initializing...".to_owned());
        FetchProgress {
            total_students,
            completed: 0,
            current_student: String::new(),
            errors: 0,
            status_messages,
        }
    }

    /// Adds a status line, keeping the last twenty.
    pub fn add_status(&mut self, message: String)
        ensures
            final(self).status_messages@ == with_status(old(self).status_messages@, message),
            final(self).status_messages.len() <= 20 || final(self).status_messages.len() == old(
                self,
            ).status_messages.len(),
            final(self).total_students == old(self).total_students,
            final(self).completed == old(self).completed,
            final(self).current_student == old(self).current_student,
            final(self).errors == old(self).errors,
    {
        self.status_messages.push(message);
        if self.status_messages.len() > 20 {
            let _ = self.status_messages.remove(0);
            proof {
                assert(final(self).status_messages@ =~= with_status(
                    old(self).status_messages@,
                    message,
                ));
            }
        }
    }
}

} // verus!
