//! The text that the calculator prints.
//!
//! Numbers reach this module already rendered, as text, so that the layout
//! is settled here whatever renders them.

use crate::input::Error;
use vstd::prelude::*;
use vstd::string::*;

verus! {

/// The report on one computation: the ground distance in meters, miles and
/// kilometers, then the slant range in meters, each number followed by its
/// unit. It ends without a line break.
pub open spec fn report_text(
    ground_m: Seq<char>,
    ground_mi: Seq<char>,
    ground_km: Seq<char>,
    slant_m: Seq<char>,
) -> Seq<char> {
    "Ground distance:\n\n"@ + ground_m + " m\n"@ + ground_mi + " mi\n"@ + ground_km
        + " km\n\nSlant range:\n\n"@ + slant_m + " m"@
}

/// Lays out the report from its four rendered numbers.
pub fn report(ground_m: &str, ground_mi: &str, ground_km: &str, slant_m: &str) -> (text: String)
    ensures
        text@ == report_text(ground_m@, ground_mi@, ground_km@, slant_m@),
{
    let mut text = String::new();
    text.append("Ground distance:\n\n");
    text.append(ground_m);
    text.append(" m\n");
    text.append(ground_mi);
    text.append(" mi\n");
    text.append(ground_km);
    text.append(" km\n\nSlant range:\n\n");
    text.append(slant_m);
    text.append(" m");
    assert(text@ =~= report_text(ground_m@, ground_mi@, ground_km@, slant_m@));
    text
}

impl Error {
    /// The line that describes the error, given the height at fault as
    /// rendered text.
    pub open spec fn message_text(self, height: Seq<char>) -> Seq<char> {
        match self {
            Error::Observer(_) => "observer must have positive non-zero height: "@ + height,
            Error::Subject(_) => "subject must have positive non-zero height: "@ + height,
        }
    }

    /// Writes the line that describes the error around `height`, the
    /// rendered height at fault.
    pub fn message(&self, height: &str) -> (line: String)
        ensures
            line@ == self.message_text(height@),
    {
        let mut line = String::new();
        match self {
            Error::Observer(_) => line.append("observer must have positive non-zero height: "),
            Error::Subject(_) => line.append("subject must have positive non-zero height: "),
        }
        line.append(height);
        assert(line@ =~= self.message_text(height@));
        line
    }
}

} // verus!
