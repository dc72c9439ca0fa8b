//! HTTP status codes and the line of text that stands for one.

use vstd::prelude::*;

verus! {

/// The reason phrase that the `http` crate holds for the status code with
/// the number `code`, if there is such a status code and it has a phrase.
pub uninterp spec fn canonical_reason_of(code: u16) -> Option<Seq<char>>;

/// The decimal digit `d` as a character.
pub open spec fn digit_char(d: int) -> char {
    if d == 0 {
        '0'
    } else if d == 1 {
        '1'
    } else if d == 2 {
        '2'
    } else if d == 3 {
        '3'
    } else if d == 4 {
        '4'
    } else if d == 5 {
        '5'
    } else if d == 6 {
        '6'
    } else if d == 7 {
        '7'
    } else if d == 8 {
        '8'
    } else {
        '9'
    }
}

/// The decimal digit that the character `c` stands for.
pub open spec fn digit_value(c: char) -> int {
    if c == '0' {
        0
    } else if c == '1' {
        1
    } else if c == '2' {
        2
    } else if c == '3' {
        3
    } else if c == '4' {
        4
    } else if c == '5' {
        5
    } else if c == '6' {
        6
    } else if c == '7' {
        7
    } else if c == '8' {
        8
    } else {
        9
    }
}

/// The three decimal digits of a status code.
pub open spec fn code_digits(code: u16) -> Seq<char> {
    seq![
        digit_char(code as int / 100),
        digit_char((code as int / 10) % 10),
        digit_char(code as int % 10),
    ]
}

/// The digits of a status code spell its number: three of them, read as
/// hundreds, tens and units.
pub proof fn lemma_code_digits_spell_code(code: u16)
    requires
        valid_code(code),
    ensures
        code_digits(code).len() == 3,
        100 * digit_value(code_digits(code)[0]) + 10 * digit_value(code_digits(code)[1])
            + digit_value(code_digits(code)[2]) == code,
{
    assert forall|d: int| 0 <= d <= 9 implies digit_value(#[trigger] digit_char(d)) == d by {}
}

/// The reason phrase written after the digits: the canonical one, or a
/// fixed text for a code that has none.
pub open spec fn reason_text(code: u16) -> Seq<char> {
    match canonical_reason_of(code) {
        Some(phrase) => phrase,
        None => "<unknown status code>"@,
    }
}

/// The text that stands for a status code: its digits, a space and its
/// reason phrase.
pub open spec fn status_line(code: u16) -> Seq<char> {
    code_digits(code) + " "@ + reason_text(code)
}

/// Whether `code` can be the number of a status code.
pub open spec fn valid_code(code: u16) -> bool {
    100 <= code <= 999
}

/// An HTTP status code: a number from 100 to 999.
#[derive(Clone, Copy, Debug, PartialEq, Eq, Structural)]
pub struct StatusCode {
    code: u16,
}

/// The answer to a number that is no status code.
#[derive(Clone, Copy, Debug, PartialEq, Eq, Structural)]
pub struct InvalidStatusCode {}

impl View for StatusCode {
    type V = u16;

    /// The number of the status code.
    closed spec fn view(&self) -> u16 {
        self.code
    }
}

/// Asks `http::StatusCode::canonical_reason` for the reason phrase of the
/// status code that `http::StatusCode::from_u16` makes of `code`. The
/// phrase depends on the number alone; the contract gives it, or its
/// absence, the name `canonical_reason_of(code)`.
#[verifier::external_body]
fn canonical_reason_phrase(code: u16) -> (phrase: Option<&'static str>)
    ensures
        match phrase {
            Some(p) => canonical_reason_of(code) == Some(p@),
            None => canonical_reason_of(code) is None,
        },
{
    http::StatusCode::from_u16(code).ok().and_then(|status| status.canonical_reason())
}

/// The decimal digit `d` as a string of one character.
fn digit_str(d: u16) -> (s: &'static str)
    requires
        d < 10,
    ensures
        s@ == seq![digit_char(d as int)],
{
    proof {
        reveal_strlit("0");
        reveal_strlit("1");
        reveal_strlit("2");
        reveal_strlit("3");
        reveal_strlit("4");
        reveal_strlit("5");
        reveal_strlit("6");
        reveal_strlit("7");
        reveal_strlit("8");
        reveal_strlit("9");
    }
    let s = if d == 0 {
        "0"
    } else if d == 1 {
        "1"
    } else if d == 2 {
        "2"
    } else if d == 3 {
        "3"
    } else if d == 4 {
        "4"
    } else if d == 5 {
        "5"
    } else if d == 6 {
        "6"
    } else if d == 7 {
        "7"
    } else if d == 8 {
        "8"
    } else {
        "9"
    };
    assert(s@ =~= seq![digit_char(d as int)]);
    s
}

impl StatusCode {
    #[verifier::type_invariant]
    spec fn in_range(self) -> bool {
        valid_code(self.code)
    }

    /// The status code whose number is `code`, as contracts speak of it.
    pub closed spec fn with_code(code: u16) -> StatusCode {
        StatusCode { code }
    }

    /// A status code is its number and nothing else.
    pub proof fn lemma_with_code(status: StatusCode, code: u16)
        ensures
            StatusCode::with_code(code)@ == code,
            StatusCode::with_code(status@) == status,
    {
    }

    /// The status code with the number `code`, if it is from 100 to 999.
    pub fn from_u16(code: u16) -> (status: Result<StatusCode, InvalidStatusCode>)
        ensures
            status is Ok <==> valid_code(code),
            status matches Ok(s) ==> s == StatusCode::with_code(code),
    {
        if 100 <= code && code <= 999 {
            Ok(StatusCode { code })
        } else {
            Err(InvalidStatusCode {  })
        }
    }

    /// `200 OK`: the request was served.
    pub fn ok() -> (status: StatusCode)
        ensures
            status == StatusCode::with_code(200),
    {
        StatusCode { code: 200 }
    }

    /// `404 Not Found`: nothing is known under the address asked for.
    pub fn not_found() -> (status: StatusCode)
        ensures
            status == StatusCode::with_code(404),
    {
        StatusCode { code: 404 }
    }

    /// `500 Internal Server Error`: the service failed on its own side.
    pub fn internal_server_error() -> (status: StatusCode)
        ensures
            status == StatusCode::with_code(500),
    {
        StatusCode { code: 500 }
    }

    /// The number of the status code.
    pub fn as_u16(&self) -> (code: u16)
        ensures
            code == self@,
            valid_code(code),
    {
        proof {
            use_type_invariant(self);
        }
        self.code
    }

    /// The canonical reason phrase of the status code, if it has one.
    pub fn canonical_reason(&self) -> (phrase: Option<&'static str>)
        ensures
            match phrase {
                Some(p) => canonical_reason_of(self@) == Some(p@),
                None => canonical_reason_of(self@) is None,
            },
    {
        proof {
            use_type_invariant(self);
        }
        canonical_reason_phrase(self.code)
    }

    /// The text that stands for the status code, such as `200 OK`.
    pub fn status_line(&self) -> (line: String)
        ensures
            line@ == status_line(self@),
    {
        proof {
            use_type_invariant(self);
        }
        let code = self.code;
        let mut line = String::from_str(digit_str(code / 100));
        line.append(digit_str((code / 10) % 10));
        line.append(digit_str(code % 10));
        assert(line@ =~= code_digits(code));
        line.append(" ");
        match canonical_reason_phrase(code) {
            Some(phrase) => {
                line.append(phrase);
            },
            None => {
                line.append("<unknown status code>");
            },
        }
        line
    }
}

} // verus!
