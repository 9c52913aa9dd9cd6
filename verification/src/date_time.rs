//! Interface for devices that keep the current date and time.

use crate::errorcode::ErrorCode;
use vstd::prelude::*;

verus! {

/// A day of the week.
#[derive(Copy, Clone, Debug, PartialEq)]
pub enum DayOfWeek {
    /// Sunday.
    Sunday,
    /// Monday.
    Monday,
    /// Tuesday.
    Tuesday,
    /// Wednesday.
    Wednesday,
    /// Thursday.
    Thursday,
    /// Friday.
    Friday,
    /// Saturday.
    Saturday,
}

/// A month of the year.
#[derive(Copy, Clone, Debug, PartialEq)]
pub enum Month {
    /// January.
    January,
    /// February.
    February,
    /// March.
    March,
    /// April.
    April,
    /// May.
    May,
    /// June.
    June,
    /// July.
    July,
    /// August.
    August,
    /// September.
    September,
    /// October.
    October,
    /// November.
    November,
    /// December.
    December,
}

/// A calendar date with a time of day.
#[derive(Copy, Clone, Debug, PartialEq)]
pub struct Date {
    /// The year.
    pub year: u16,
    /// The month.
    pub month: Month,
    /// The day of the month.
    pub day: u8,
    /// The day of the week.
    pub day_of_week: DayOfWeek,
    /// The hour, on the 24-hour clock.
    pub hour: u8,
    /// The minute.
    pub minute: u8,
    /// The second.
    pub seconds: u8,
}

/// Interface for reading and setting the current time.
pub trait DateTime<'a> {
    /// Request driver to return date and time.
    ///
    /// When successful this call must be followed by a call to
    /// [`DateTimeClient::callback_get_date`] which provides the actual
    /// date and time or an error.
    fn get_date_time(&self) -> Result<(), ErrorCode>;

    /// Sets the current date and time.
    ///
    /// When successful this call must be followed by a call to
    /// [`DateTimeClient::callback_set_date`].
    fn set_date_time(&self, date_time: Date) -> Result<(), ErrorCode>;

    /// Sets a client that calls the callback function when date and time
    /// is requested.
    fn set_client(&self, client: &'a dyn DateTimeClient);
}

/// Callback handler for when current date is read or set.
pub trait DateTimeClient {
    /// Called when a date time reading has completed, with the current
    /// date on success and the error encountered otherwise.
    fn callback_get_date(&self, datetime: Result<Date, ErrorCode>);

    /// Called when a date is set: `Ok` when the time was set correctly,
    /// the error encountered otherwise.
    fn callback_set_date(&self, result: Result<(), ErrorCode>);
}

} // verus!
