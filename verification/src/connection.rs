//! What a connection to the store is set up with: the consistency level and
//! the schema of the workload.

use crate::cache::DDL_CACHE;
use crate::tasks::PayloadKind;
use crate::text::{same_text, to_uppercase, uppercase};
use crate::timeseries::DDL_TIMESERIES;
use vstd::prelude::*;

verus! {

/// How many replicas have to acknowledge a read or a write.
#[derive(Clone, Copy, Debug, PartialEq, Eq, Structural)]
pub enum Consistency {
    One,
    Two,
    Three,
    Quorum,
    All,
    LocalQuorum,
    EachQuorum,
    Serial,
    LocalSerial,
    LocalOne,
}

impl Consistency {
    /// The level that a name in upper case selects; a name that is not
    /// known selects `LocalQuorum`.
    pub open spec fn spec_from_upper(name: Seq<char>) -> Consistency {
        if name == "ONE"@ {
            Consistency::One
        } else if name == "TWO"@ {
            Consistency::Two
        } else if name == "THREE"@ {
            Consistency::Three
        } else if name == "QUORUM"@ {
            Consistency::Quorum
        } else if name == "ALL"@ {
            Consistency::All
        } else if name == "LOCAL_QUORUM"@ {
            Consistency::LocalQuorum
        } else if name == "EACH_QUORUM"@ {
            Consistency::EachQuorum
        } else if name == "SERIAL"@ {
            Consistency::Serial
        } else if name == "LOCAL_SERIAL"@ {
            Consistency::LocalSerial
        } else if name == "LOCAL_ONE"@ {
            Consistency::LocalOne
        } else {
            Consistency::LocalQuorum
        }
    }

    /// The level that a name selects, whatever the case of its letters.
    pub open spec fn spec_from_name(name: Seq<char>) -> Consistency {
        Consistency::spec_from_upper(uppercase(name))
    }

    /// The level that a name in upper case selects; a name that is not
    /// known selects `LocalQuorum`.
    pub fn from_upper(name: &str) -> (level: Consistency)
        ensures
            level == Consistency::spec_from_upper(name@),
    {
        if same_text(name, "ONE") {
            Consistency::One
        } else if same_text(name, "TWO") {
            Consistency::Two
        } else if same_text(name, "THREE") {
            Consistency::Three
        } else if same_text(name, "QUORUM") {
            Consistency::Quorum
        } else if same_text(name, "ALL") {
            Consistency::All
        } else if same_text(name, "LOCAL_QUORUM") {
            Consistency::LocalQuorum
        } else if same_text(name, "EACH_QUORUM") {
            Consistency::EachQuorum
        } else if same_text(name, "SERIAL") {
            Consistency::Serial
        } else if same_text(name, "LOCAL_SERIAL") {
            Consistency::LocalSerial
        } else if same_text(name, "LOCAL_ONE") {
            Consistency::LocalOne
        } else {
            Consistency::LocalQuorum
        }
    }

    /// The level that a name selects, whatever the case of its letters; a
    /// name that is not known selects `LocalQuorum`.
    pub fn from_name(name: &str) -> (level: Consistency)
        ensures
            level == Consistency::spec_from_name(name@),
    {
        let upper: String = to_uppercase(name);
        Consistency::from_upper(upper.as_str())
    }
}

/// The schema of a workload, with markers for the replication factor and
/// the tablets.
pub open spec fn spec_schema(payload: PayloadKind) -> Seq<char> {
    match payload {
        PayloadKind::Timeseries => DDL_TIMESERIES@,
        PayloadKind::Cache => DDL_CACHE@,
    }
}

/// Whether tablets are enabled, as the schema writes it: they are enabled
/// unless their number is zero.
pub open spec fn spec_tablets_enabled(tablets: usize) -> Seq<char> {
    if tablets > 0 {
        "true"@
    } else {
        "false"@
    }
}

/// The schema of a workload, with markers for the replication factor and
/// the tablets.
pub fn schema(payload: PayloadKind) -> (ddl: &'static str)
    ensures
        ddl@ == spec_schema(payload),
{
    match payload {
        PayloadKind::Timeseries => DDL_TIMESERIES,
        PayloadKind::Cache => DDL_CACHE,
    }
}

/// Whether tablets are enabled, as the schema writes it.
pub fn tablets_enabled(tablets: usize) -> (enabled: &'static str)
    ensures
        enabled@ == spec_tablets_enabled(tablets),
{
    if tablets > 0 {
        "true"
    } else {
        "false"
    }
}

} // verus!
