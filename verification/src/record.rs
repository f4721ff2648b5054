//! Test records: what one executed test case left behind, and the kinds of report.

use vstd::prelude::*;
use vstd::string::*;
use crate::style::Tint;

verus! {

/// How a test case ended.
#[derive(Clone, Copy, Debug, PartialEq, Eq, Structural)]
pub enum TestStatus {
    Success,
    Revert,
    Failure,
}

/// The form in which a report is written.
#[derive(Clone, Copy, Debug, PartialEq, Eq, Structural)]
pub enum ReportKind {
    /// One table row per record, raw data only.
    Table,
    /// A list with raw return data and raw logs.
    List,
    /// A list with return data and logs decoded.
    HuffTest,
    /// The records themselves as one structured document.
    JSON,
}

/// The outcome of one test case.
#[derive(Clone, Debug, PartialEq, Eq)]
pub struct TestResult {
    pub name: String,
    pub status: TestStatus,
    /// Gas units consumed.
    pub gas: u64,
    /// Raw hexadecimal return data, without `0x`.
    pub return_data: Option<String>,
    /// Emitted logs in the order of emission: program counter and raw hexadecimal data.
    pub logs: Vec<(u32, String)>,
}

/// A test record as plain values.
pub struct Record {
    pub name: Seq<char>,
    pub status: TestStatus,
    pub gas: nat,
    pub return_data: Option<Seq<char>>,
    pub logs: Seq<(nat, Seq<char>)>,
}

impl View for TestResult {
    type V = Record;

    open spec fn view(&self) -> Record {
        Record {
            name: self.name@,
            status: self.status,
            gas: self.gas as nat,
            return_data: match self.return_data {
                Some(d) => Some(d@),
                None => None,
            },
            logs: self.logs@.map_values(|l: (u32, String)| (l.0 as nat, l.1@)),
        }
    }
}

/// The records of a collection of results, in order.
pub open spec fn records(results: Seq<TestResult>) -> Seq<Record> {
    results.map_values(|r: TestResult| r@)
}

impl TestStatus {
    /// The label under which a status is displayed.
    pub open spec fn label(self) -> Seq<char> {
        match self {
            TestStatus::Success => "PASS"@,
            TestStatus::Revert => "REVERT"@,
            TestStatus::Failure => "FAIL"@,
        }
    }

    /// The tint of the label: green for a pass, red otherwise.
    pub open spec fn tint(self) -> Tint {
        match self {
            TestStatus::Success => Tint::Green,
            _ => Tint::Red,
        }
    }

    /// The label under which the status is displayed.
    pub fn display_label(&self) -> (r: String)
        ensures
            r@ == self.label(),
    {
        match self {
            TestStatus::Success => String::from_str("PASS"),
            TestStatus::Revert => String::from_str("REVERT"),
            TestStatus::Failure => String::from_str("FAIL"),
        }
    }

    /// The tint in which the label is displayed.
    pub fn display_tint(&self) -> (r: Tint)
        ensures
            r == self.tint(),
    {
        match self {
            TestStatus::Success => Tint::Green,
            _ => Tint::Red,
        }
    }
}

} // verus!
