//! The timetable as the upstream API's consumers pass it around.

use vstd::prelude::*;

verus! {

/// A week's timetable: the time slots, in groups, and one column per day.
#[derive(PartialEq, Clone, Debug)]
pub struct Timetable {
    /// The time slots; slots of one group follow each other without a break.
    pub times: Vec<Vec<String>>,
    pub columns: Vec<TimetableColumn>,
}

/// One day's lessons, slot by slot; a free slot is `None`.
#[derive(PartialEq, Clone, Debug)]
pub struct TimetableColumn {
    pub name: String,
    pub lessons: Vec<Option<Lesson>>,
}

/// One day's lessons, cut into the groups of the time slots.
#[derive(PartialEq, Clone, Debug)]
pub struct GroupedTimetableColumn {
    pub name: String,
    pub lessons: Vec<Vec<Option<Lesson>>>,
}

/// A lesson: what is taught, and whether it takes place.
#[derive(PartialEq, Clone, Debug)]
pub struct Lesson {
    pub subject: Subject,
    pub status: LessonStatus,
}

/// A subject, with its teacher, its room and its colour as red, green, blue.
#[derive(PartialEq, Debug)]
pub struct Subject {
    pub full_name: String,
    pub short_name: String,
    pub teacher: String,
    pub room: String,
    pub color: (u8, u8, u8),
}

impl Clone for Subject {
    fn clone(&self) -> (copy: Subject)
        ensures
            copy == *self,
    {
        Subject {
            full_name: self.full_name.clone(),
            short_name: self.short_name.clone(),
            teacher: self.teacher.clone(),
            room: self.room.clone(),
            color: (self.color.0, self.color.1, self.color.2),
        }
    }
}

/// Whether a lesson takes place as planned.
#[derive(PartialEq, Clone, Debug)]
pub enum LessonStatus {
    Normal,
    Cancelled,
    /// Another subject is taught in its place.
    Replaced(Subject),
}

} // verus!
