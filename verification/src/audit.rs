//! The record of the peers that were added.

use chrono::Utc;
use vstd::prelude::*;
use vstd::string::*;

verus! {

/// One addition: when it happened, and the address that was added.
#[derive(Clone, Debug, PartialEq, Eq)]
pub struct AdditionRecord {
    /// The time of the addition, in the form of RFC 3339.
    pub timestamp: String,
    /// The address under which the peer was added.
    pub connection: String,
}

impl AdditionRecord {
    /// The line of the record in the additions file: the time, a space, the
    /// address, and the end of the line.
    pub open spec fn line_text(self) -> Seq<char> {
        self.timestamp@ + seq![' '] + self.connection@ + seq!['\n']
    }

    /// The record of an addition at the given time.
    pub fn new(timestamp: String, connection: String) -> (record: AdditionRecord)
        ensures
            record.timestamp@ == timestamp@,
            record.connection@ == connection@,
    {
        AdditionRecord { timestamp, connection }
    }

    /// The record of an addition that happens now. Whatever the clock says,
    /// the address is the one given.
    pub fn stamp(connection: String) -> (record: AdditionRecord)
        ensures
            record.connection@ == connection@,
    {
        AdditionRecord::new(now_rfc3339(), connection)
    }

    /// The line of the record in the additions file.
    pub fn line(&self) -> (text: String)
        ensures
            text@ == self.line_text(),
    {
        proof {
            reveal_strlit(" ");
            reveal_strlit("\n");
            assert(" "@ =~= seq![' ']);
            assert("\n"@ =~= seq!['\n']);
        }
        let mut text = String::new();
        text.append(self.timestamp.as_str());
        text.append(" ");
        text.append(self.connection.as_str());
        text.append("\n");
        assert(text@ =~= self.line_text());
        text
    }
}

/// `Utc::now` and `DateTime::to_rfc3339` of chrono: the time of the call as
/// text. It depends on the clock, so nothing is claimed of it.
#[verifier::external_body]
fn now_rfc3339() -> String {
    Utc::now().to_rfc3339()
}

} // verus!
