//! The time of day that is shown, and how an edit changes it.

use vstd::prelude::*;

verus! {

/// The seconds in a day.
pub const DAY: u32 = 86400;

/// A time of day.
#[derive(Debug, Clone, Copy, PartialEq, Eq, Structural)]
pub struct TimeOfDay {
    pub hours: u8,
    pub minutes: u8,
    pub seconds: u8,
}

impl TimeOfDay {
    /// Is this a time that a clock shows?
    pub open spec fn is_valid(self) -> bool {
        self.hours < 24 && self.minutes < 60 && self.seconds < 60
    }

    /// The seconds since midnight.
    pub open spec fn seconds_of_day(self) -> int {
        self.hours * 3600 + self.minutes * 60 + self.seconds
    }

    /// The time of day so many seconds after midnight.
    pub open spec fn at(seconds: int) -> TimeOfDay {
        TimeOfDay {
            hours: (seconds / 3600) as u8,
            minutes: ((seconds / 60) % 60) as u8,
            seconds: (seconds % 60) as u8,
        }
    }

    /// The time of day so many seconds later, or earlier for a negative
    /// number, round the clock.
    pub open spec fn shifted(self, seconds: int) -> TimeOfDay {
        TimeOfDay::at((self.seconds_of_day() + seconds) % (DAY as int))
    }

    /// Midnight.
    pub fn midnight() -> (time: TimeOfDay)
        ensures
            time == (TimeOfDay { hours: 0, minutes: 0, seconds: 0 }),
            time.is_valid(),
    {
        TimeOfDay { hours: 0, minutes: 0, seconds: 0 }
    }

    #[verifier::when_used_as_spec(is_valid)]
    pub fn valid(self) -> (valid: bool)
        ensures
            valid == self.is_valid(),
    {
        self.hours < 24 && self.minutes < 60 && self.seconds < 60
    }

    /// The time of day so many seconds later, round the clock.
    pub fn later(self, seconds: u32) -> (time: TimeOfDay)
        requires
            self.is_valid(),
        ensures
            time == self.shifted(seconds as int),
            time.is_valid(),
    {
        let now: u32 = (self.hours as u32) * 3600 + (self.minutes as u32) * 60 + (
        self.seconds as u32);
        let then: u32 = (now + seconds % DAY) % DAY;
        assert(then == (now + seconds) % (DAY as int)) by (nonlinear_arith)
            requires
                then == (now + seconds % 86400) % 86400,
                DAY == 86400,
        ;
        Self::from_seconds(then)
    }

    /// The time of day so many seconds earlier, round the clock.
    pub fn earlier(self, seconds: u32) -> (time: TimeOfDay)
        requires
            self.is_valid(),
        ensures
            time == self.shifted(-(seconds as int)),
            time.is_valid(),
    {
        let now: u32 = (self.hours as u32) * 3600 + (self.minutes as u32) * 60 + (
        self.seconds as u32);
        let back: u32 = seconds % DAY;
        let then: u32 = (now + DAY - back) % DAY;
        assert(then == (now - seconds) % (DAY as int)) by (nonlinear_arith)
            requires
                then == (now + 86400 - seconds % 86400) % 86400,
                DAY == 86400,
        ;
        Self::from_seconds(then)
    }

    /// The same hour and minute, at second zero.
    pub fn reset_seconds(self) -> (time: TimeOfDay)
        ensures
            time == (TimeOfDay { seconds: 0, ..self }),
    {
        TimeOfDay { seconds: 0, ..self }
    }

    fn from_seconds(seconds: u32) -> (time: TimeOfDay)
        requires
            seconds < DAY,
        ensures
            time == TimeOfDay::at(seconds as int),
            time.is_valid(),
    {
        TimeOfDay {
            hours: (seconds / 3600) as u8,
            minutes: ((seconds / 60) % 60) as u8,
            seconds: (seconds % 60) as u8,
        }
    }
}

#[derive(Clone, Copy, Debug, PartialEq, Eq, Structural)]
pub enum RTCField {
    Hours,
    Minutes,
}

impl Default for RTCField {
    fn default() -> (field: RTCField)
        ensures
            field == RTCField::Hours,
    {
        RTCField::Hours
    }
}

impl RTCField {
    /// The other of the two fields.
    pub open spec fn other(self) -> RTCField {
        match self {
            RTCField::Hours => RTCField::Minutes,
            RTCField::Minutes => RTCField::Hours,
        }
    }

    /// The seconds that one step of the field is worth.
    pub open spec fn unit(self) -> int {
        match self {
            RTCField::Hours => 3600,
            RTCField::Minutes => 60,
        }
    }

    pub fn next(&mut self)
        ensures
            *final(self) == old(self).other(),
    {
        *self = match self {
            RTCField::Hours => RTCField::Minutes,
            RTCField::Minutes => RTCField::Hours,
        }
    }

    pub fn prev(&mut self)
        ensures
            *final(self) == old(self).other(),
    {
        *self = match self {
            RTCField::Hours => RTCField::Minutes,
            RTCField::Minutes => RTCField::Hours,
        }
    }
}

/// The time on show and the field that an edit changes.
#[derive(Debug, Clone, Copy, PartialEq, Eq, Structural)]
pub struct DisplayInfo {
    datetime: TimeOfDay,
    edit_field: RTCField,
}

impl DisplayInfo {
    pub closed spec fn time(&self) -> TimeOfDay {
        self.datetime
    }

    pub closed spec fn edited(&self) -> RTCField {
        self.edit_field
    }

    /// Creates information for `dt` time
    pub fn from_datetime(dt: &TimeOfDay) -> (info: DisplayInfo)
        ensures
            info.time() == *dt,
            info.edited() == RTCField::Hours,
    {
        Self { datetime: *dt, edit_field: RTCField::Hours }
    }

    /// Returns current displayed time
    pub fn datetime(&self) -> (time: &TimeOfDay)
        ensures
            *time == self.time(),
    {
        &self.datetime
    }

    /// Reset seconds to zero and returns datetime
    pub fn reset_seconds(&mut self) -> (time: &TimeOfDay)
        ensures
            *time == (TimeOfDay { seconds: 0, ..old(self).time() }),
            final(self).time() == *time,
            final(self).edited() == old(self).edited(),
    {
        self.datetime = self.datetime.reset_seconds();
        &self.datetime
    }

    /// Edits specified field: so many hours or minutes later, round the
    /// clock.
    pub fn add_time(&mut self, duration: u32)
        requires
            old(self).time().is_valid(),
            duration * old(self).edited().unit() <= u32::MAX,
        ensures
            final(self).time() == old(self).time().shifted(duration * old(self).edited().unit()),
            final(self).time().is_valid(),
            final(self).edited() == old(self).edited(),
    {
        match self.edit_field {
            RTCField::Hours => {
                self.datetime = self.datetime.later(duration * 3600);
            },
            RTCField::Minutes => {
                self.datetime = self.datetime.later(duration * 60);
            },
        }
    }

    /// Edits specified field: so many hours or minutes earlier, round the
    /// clock.
    pub fn sub_time(&mut self, duration: u32)
        requires
            old(self).time().is_valid(),
            duration * old(self).edited().unit() <= u32::MAX,
        ensures
            final(self).time() == old(self).time().shifted(
                -(duration * old(self).edited().unit()),
            ),
            final(self).time().is_valid(),
            final(self).edited() == old(self).edited(),
    {
        match self.edit_field {
            RTCField::Hours => {
                self.datetime = self.datetime.earlier(duration * 3600);
            },
            RTCField::Minutes => {
                self.datetime = self.datetime.earlier(duration * 60);
            },
        }
    }

    pub fn next_field(&mut self)
        ensures
            final(self).edited() == old(self).edited().other(),
            final(self).time() == old(self).time(),
    {
        self.edit_field.next()
    }

    pub fn prev_field(&mut self)
        ensures
            final(self).edited() == old(self).edited().other(),
            final(self).time() == old(self).time(),
    {
        self.edit_field.prev()
    }

    pub fn field(&self) -> (field: RTCField)
        ensures
            field == self.edited(),
    {
        self.edit_field
    }

    /// Adds 1 second to internal date
    pub fn tick(&mut self)
        requires
            old(self).time().is_valid(),
        ensures
            final(self).time() == old(self).time().shifted(1),
            final(self).time().is_valid(),
            final(self).edited() == old(self).edited(),
    {
        self.datetime = self.datetime.later(1);
    }
}

} // verus!
