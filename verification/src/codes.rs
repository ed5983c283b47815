//! The finding codes of the analyzer's reports, with their categories and
//! descriptions.
use vstd::prelude::*;

verus! {

/// A finding code, as reports list them.
#[derive(Clone, Copy, Debug, PartialEq, Eq, Structural)]
pub enum FindingCode {
    S000,
    S001,
    S002,
    S003,
    S004,
    S005,
    S006,
    S007,
    S008,
    S009,
    S010,
    S011,
    S012,
}

/// The position of a code in the catalogue: the number after the `S`.
pub open spec fn code_number(c: FindingCode) -> nat {
    match c {
        FindingCode::S000 => 0,
        FindingCode::S001 => 1,
        FindingCode::S002 => 2,
        FindingCode::S003 => 3,
        FindingCode::S004 => 4,
        FindingCode::S005 => 5,
        FindingCode::S006 => 6,
        FindingCode::S007 => 7,
        FindingCode::S008 => 8,
        FindingCode::S009 => 9,
        FindingCode::S010 => 10,
        FindingCode::S011 => 11,
        FindingCode::S012 => 12,
    }
}

/// The code as reports spell it.
pub open spec fn code_name(c: FindingCode) -> Seq<char> {
    match c {
        FindingCode::S000 => "S000"@,
        FindingCode::S001 => "S001"@,
        FindingCode::S002 => "S002"@,
        FindingCode::S003 => "S003"@,
        FindingCode::S004 => "S004"@,
        FindingCode::S005 => "S005"@,
        FindingCode::S006 => "S006"@,
        FindingCode::S007 => "S007"@,
        FindingCode::S008 => "S008"@,
        FindingCode::S009 => "S009"@,
        FindingCode::S010 => "S010"@,
        FindingCode::S011 => "S011"@,
        FindingCode::S012 => "S012"@,
    }
}

/// The category a code belongs to.
pub open spec fn code_category(c: FindingCode) -> Seq<char> {
    match c {
        FindingCode::S000 => "timeout"@,
        FindingCode::S001 => "authentication"@,
        FindingCode::S002 => "runtime"@,
        FindingCode::S003 => "arithmetic"@,
        FindingCode::S004 => "ledger_size"@,
        FindingCode::S005 => "storage"@,
        FindingCode::S006 => "runtime"@,
        FindingCode::S007 => "custom"@,
        FindingCode::S008 => "events"@,
        FindingCode::S009 => "result_handling"@,
        FindingCode::S010 => "upgrade"@,
        FindingCode::S011 => "smt"@,
        FindingCode::S012 => "sep41"@,
    }
}

/// What a code means.
pub open spec fn code_description(c: FindingCode) -> Seq<char> {
    match c {
        FindingCode::S000 => "Analysis timeout occurred."@,
        FindingCode::S001 => "Missing authentication guard in public function."@,
        FindingCode::S002 => "Explicit panic/unwrap/expect usage."@,
        FindingCode::S003 => "Unchecked arithmetic operation may overflow."@,
        FindingCode::S004 => "Ledger entry size exceeds or approaches the configured limit."@,
        FindingCode::S005 => "Potential storage key collision detected."@,
        FindingCode::S006 => "Unsafe language pattern detected."@,
        FindingCode::S007 => "Custom regex rule matched contract source."@,
        FindingCode::S008 => "Event schema or topic issue detected."@,
        FindingCode::S009 => "Unhandled Result value detected."@,
        FindingCode::S010 => "Upgrade or admin mechanism risk detected."@,
        FindingCode::S011 => "SMT invariant issue detected."@,
        FindingCode::S012 => "SEP-41 compliance issue detected."@,
    }
}

/// The catalogue of codes, in the order reports list them.
pub open spec fn spec_catalogue() -> Seq<FindingCode> {
    seq![
        FindingCode::S000,
        FindingCode::S001,
        FindingCode::S002,
        FindingCode::S003,
        FindingCode::S004,
        FindingCode::S005,
        FindingCode::S006,
        FindingCode::S007,
        FindingCode::S008,
        FindingCode::S009,
        FindingCode::S010,
        FindingCode::S011,
        FindingCode::S012,
    ]
}

impl FindingCode {
    /// The code as reports spell it, such as `S005`.
    pub fn name(&self) -> (r: &'static str)
        ensures
            r@ == code_name(*self),
    {
        match self {
            FindingCode::S000 => "S000",
            FindingCode::S001 => "S001",
            FindingCode::S002 => "S002",
            FindingCode::S003 => "S003",
            FindingCode::S004 => "S004",
            FindingCode::S005 => "S005",
            FindingCode::S006 => "S006",
            FindingCode::S007 => "S007",
            FindingCode::S008 => "S008",
            FindingCode::S009 => "S009",
            FindingCode::S010 => "S010",
            FindingCode::S011 => "S011",
            FindingCode::S012 => "S012",
        }
    }

    /// The category the code belongs to, such as `storage`.
    pub fn category(&self) -> (r: &'static str)
        ensures
            r@ == code_category(*self),
    {
        match self {
            FindingCode::S000 => "timeout",
            FindingCode::S001 => "authentication",
            FindingCode::S002 => "runtime",
            FindingCode::S003 => "arithmetic",
            FindingCode::S004 => "ledger_size",
            FindingCode::S005 => "storage",
            FindingCode::S006 => "runtime",
            FindingCode::S007 => "custom",
            FindingCode::S008 => "events",
            FindingCode::S009 => "result_handling",
            FindingCode::S010 => "upgrade",
            FindingCode::S011 => "smt",
            FindingCode::S012 => "sep41",
        }
    }

    /// What the code means.
    pub fn description(&self) -> (r: &'static str)
        ensures
            r@ == code_description(*self),
    {
        match self {
            FindingCode::S000 => "Analysis timeout occurred.",
            FindingCode::S001 => "Missing authentication guard in public function.",
            FindingCode::S002 => "Explicit panic/unwrap/expect usage.",
            FindingCode::S003 => "Unchecked arithmetic operation may overflow.",
            FindingCode::S004 => "Ledger entry size exceeds or approaches the configured limit.",
            FindingCode::S005 => "Potential storage key collision detected.",
            FindingCode::S006 => "Unsafe language pattern detected.",
            FindingCode::S007 => "Custom regex rule matched contract source.",
            FindingCode::S008 => "Event schema or topic issue detected.",
            FindingCode::S009 => "Unhandled Result value detected.",
            FindingCode::S010 => "Upgrade or admin mechanism risk detected.",
            FindingCode::S011 => "SMT invariant issue detected.",
            FindingCode::S012 => "SEP-41 compliance issue detected.",
        }
    }

    /// Every code, from `S000` to `S012`, in the order reports list them.
    pub fn catalogue() -> (r: Vec<FindingCode>)
        ensures
            r@ == spec_catalogue(),
    {
        let r = vec![
            FindingCode::S000,
            FindingCode::S001,
            FindingCode::S002,
            FindingCode::S003,
            FindingCode::S004,
            FindingCode::S005,
            FindingCode::S006,
            FindingCode::S007,
            FindingCode::S008,
            FindingCode::S009,
            FindingCode::S010,
            FindingCode::S011,
            FindingCode::S012,
        ];
        assert(r@ =~= spec_catalogue());
        r
    }
}

} // verus!
