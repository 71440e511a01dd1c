//! Metadata describing one archive file, as derived from its filename by
//! an outside collaborator; none of the decoded structure feeds it.

use vstd::prelude::*;

verus! {

/// A calendar date held as plain year, month and day values, so that
/// contracts can speak of it directly.
#[derive(Clone, Copy, Debug, PartialEq, Eq, Structural)]
pub struct Date {
    pub year: i32,
    /// 1 through 12.
    pub month: u8,
    /// 1 through 31.
    pub day: u8,
}

impl Date {
    /// The month and day lie in calendar range. Which days exist in which
    /// month is the calendar collaborator's concern, not this library's.
    pub open spec fn wf(&self) -> bool {
        &&& 1 <= self.month <= 12
        &&& 1 <= self.day <= 31
    }

    /// A date from plain values; out-of-range months or days are refused.
    pub fn new(year: i32, month: u8, day: u8) -> (r: Option<Date>)
        ensures
            r is Some <==> 1 <= month <= 12 && 1 <= day <= 31,
            r matches Some(d) ==> d == (Date { year, month, day }) && d.wf(),
    {
        if 1 <= month && month <= 12 && 1 <= day && day <= 31 {
            Some(Date { year, month, day })
        } else {
            None
        }
    }
}

/// Metadata describing a NEXRAD WSR-88D radar data file.
pub struct FileMetadata {
    site: String,
    date: Date,
    identifier: String,
}

impl FileMetadata {
    pub closed spec fn spec_site(&self) -> Seq<char> {
        self.site@
    }

    pub closed spec fn spec_date(&self) -> Date {
        self.date
    }

    pub closed spec fn spec_identifier(&self) -> Seq<char> {
        self.identifier@
    }

    /// Create new file metadata.
    pub fn new(site: String, date: Date, identifier: String) -> (r: FileMetadata)
        ensures
            r.spec_site() == site@,
            r.spec_date() == date,
            r.spec_identifier() == identifier@,
    {
        FileMetadata { site, date, identifier }
    }

    /// The radar site this file was produced at, e.g. KDMX.
    pub fn site(&self) -> (r: &String)
        ensures
            r@ == self.spec_site(),
    {
        &self.site
    }

    /// The date this file's data was collected on.
    pub fn date(&self) -> (r: &Date)
        ensures
            *r == self.spec_date(),
    {
        &self.date
    }

    /// The unique identifier for this file for its site on the date.
    pub fn identifier(&self) -> (r: &String)
        ensures
            r@ == self.spec_identifier(),
    {
        &self.identifier
    }
}

} // verus!
