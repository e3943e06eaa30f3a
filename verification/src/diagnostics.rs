//! Normalization of the validator's raw, partly-optional error reports
//! into positioned [`XMLError`] diagnostics.

use vstd::prelude::*;

use crate::records::{XMLError, XMLErrorView};
use vstd::string::StringExecFns;

verus! {

/// One raw violation report, exactly as the validator hands it out:
/// position and message may be absent, the domain is still a bare
/// numeric code.
pub struct RawDiagnostic {
    pub line: Option<i32>,
    pub col: Option<i32>,
    pub message: Option<String>,
    pub level: String,
    pub domain: i32,
    pub code: i32,
}

/// Mathematical view of a [`RawDiagnostic`].
pub struct RawDiagnosticView {
    pub line: Option<int>,
    pub col: Option<int>,
    pub message: Option<Seq<char>>,
    pub level: Seq<char>,
    pub domain: int,
    pub code: int,
}

impl View for RawDiagnostic {
    type V = RawDiagnosticView;

    open spec fn view(&self) -> RawDiagnosticView {
        RawDiagnosticView {
            line: match self.line {
                Some(l) => Some(l as int),
                None => None,
            },
            col: match self.col {
                Some(c) => Some(c as int),
                None => None,
            },
            message: match self.message {
                Some(m) => Some(m@),
                None => None,
            },
            level: self.level@,
            domain: self.domain as int,
            code: self.code as int,
        }
    }
}

impl DeepView for RawDiagnostic {
    type V = RawDiagnosticView;

    open spec fn deep_view(&self) -> RawDiagnosticView {
        self.view()
    }
}

/// The decimal digit for a value below ten.
pub open spec fn digit_char(d: nat) -> char {
    if d == 0 {
        '0'
    } else if d == 1 {
        '1'
    } else if d == 2 {
        '2'
    } else if d == 3 {
        '3'
    } else if d == 4 {
        '4'
    } else if d == 5 {
        '5'
    } else if d == 6 {
        '6'
    } else if d == 7 {
        '7'
    } else if d == 8 {
        '8'
    } else {
        '9'
    }
}

/// The decimal digit sequence of a non-negative number, most
/// significant digit first, with no leading zeros.
pub open spec fn spec_udecimal(n: nat) -> Seq<char>
    decreases n,
{
    if n < 10 {
        seq![digit_char(n)]
    } else {
        spec_udecimal(n / 10).push(digit_char(n % 10))
    }
}

/// The decimal rendering of a number, with a leading minus sign when it
/// is negative.
pub open spec fn spec_decimal(n: int) -> Seq<char> {
    if n < 0 {
        seq!['-'] + spec_udecimal((-n) as nat)
    } else {
        spec_udecimal(n as nat)
    }
}

/// The one-character string for a decimal digit.
fn digit_str(d: u32) -> (r: &'static str)
    requires
        d < 10,
    ensures
        r@ == seq![digit_char(d as nat)],
{
    proof {
        reveal_strlit("0");
        reveal_strlit("1");
        reveal_strlit("2");
        reveal_strlit("3");
        reveal_strlit("4");
        reveal_strlit("5");
        reveal_strlit("6");
        reveal_strlit("7");
        reveal_strlit("8");
        reveal_strlit("9");
    }
    match d {
        0 => "0",
        1 => "1",
        2 => "2",
        3 => "3",
        4 => "4",
        5 => "5",
        6 => "6",
        7 => "7",
        8 => "8",
        _ => "9",
    }
}

/// The decimal rendering of a non-negative number.
fn udecimal(n: u32) -> (r: String)
    ensures
        r@ == spec_udecimal(n as nat),
    decreases n,
{
    if n < 10 {
        digit_str(n).to_owned()
    } else {
        let mut s = udecimal(n / 10);
        s.append(digit_str(n % 10));
        proof {
            assert(s@ =~= spec_udecimal((n / 10) as nat).push(digit_char((n % 10) as nat)));
        }
        s
    }
}

/// The decimal rendering of a number, as `i32` values format themselves.
pub fn decimal_string(n: i32) -> (r: String)
    ensures
        r@ == spec_decimal(n as int),
{
    if n >= 0 {
        udecimal(n as u32)
    } else {
        let m: u32 = (-(n as i64)) as u32;
        proof {
            assert(m as nat == (-(n as int)) as nat);
        }
        let mut s = "-".to_owned();
        s.append(udecimal(m).as_str());
        proof {
            reveal_strlit("-");
            assert(s@ =~= seq!['-'] + spec_udecimal((-(n as int)) as nat));
        }
        s
    }
}

/// What one raw report normalizes to: missing positions become 0,
/// a missing message becomes the empty text, and the numeric domain is
/// rendered in decimal.
pub open spec fn spec_normalize(d: RawDiagnosticView) -> XMLErrorView {
    XMLErrorView {
        line: match d.line {
            Some(l) => l,
            None => 0,
        },
        column: match d.col {
            Some(c) => c,
            None => 0,
        },
        message: match d.message {
            Some(m) => m,
            None => Seq::empty(),
        },
        level: d.level,
        domain: spec_decimal(d.domain),
        code: d.code,
    }
}

/// Normalize every raw report of one validation pass, in order: one
/// diagnostic per report, so no violation is dropped.
pub fn normalize_errors(raw: &Vec<RawDiagnostic>) -> (r: Vec<XMLError>)
    ensures
        r.deep_view().len() == raw.deep_view().len(),
        forall|i: int|
            0 <= i < raw.deep_view().len() ==> #[trigger] r.deep_view()[i] == spec_normalize(
                raw.deep_view()[i],
            ),
{
    let mut r: Vec<XMLError> = Vec::new();
    let mut i: usize = 0;
    while i < raw.len()
        invariant
            i <= raw@.len(),
            r.deep_view().len() == i,
            forall|j: int|
                0 <= j < i ==> #[trigger] r.deep_view()[j] == spec_normalize(raw.deep_view()[j]),
        decreases raw@.len() - i,
    {
        let d = &raw[i];
        let line: i32 = match d.line {
            Some(l) => l,
            None => 0,
        };
        let column: i32 = match d.col {
            Some(c) => c,
            None => 0,
        };
        let message: String = match &d.message {
            Some(m) => m.clone(),
            None => String::new(),
        };
        let e = XMLError {
            line,
            column,
            message,
            level: d.level.clone(),
            domain: decimal_string(d.domain),
            code: d.code,
        };
        let ghost prev = r.deep_view();
        proof {
            assert(e.deep_view() == spec_normalize(raw.deep_view()[i as int]));
        }
        r.push(e);
        proof {
            assert(r.deep_view() =~= prev.push(e.deep_view()));
        }
        i += 1;
    }
    r
}

} // verus!
