use vstd::prelude::*;

verus! {

/// The shape in which an hourly rate arrives on the wire.
#[derive(Clone, Debug)]
pub enum RateInput {
    /// The field is absent.
    Missing,
    /// `null`.
    Null,
    /// A JSON number, as its text.
    Number(String),
    /// A JSON string.
    Text(String),
    /// Anything else: a boolean, an array or an object.
    Other,
}

/// What a rate normalizes to, before the decimal text becomes a number.
#[derive(Clone, Debug)]
pub enum RateOutcome {
    /// No rate.
    Absent,
    /// A JSON number, taken as it is.
    Number(String),
    /// Text to parse as a decimal number; text that does not parse is no rate.
    Parse(String),
}

/// Whether `c` has the Unicode White_Space property, as `char::is_whitespace`
/// tests it.
pub open spec fn is_white_space(c: char) -> bool {
    let u = c as u32;
    ||| 0x9 <= u <= 0xd
    ||| u == 0x20
    ||| u == 0x85
    ||| u == 0xa0
    ||| u == 0x1680
    ||| 0x2000 <= u <= 0x200a
    ||| u == 0x2028
    ||| u == 0x2029
    ||| u == 0x202f
    ||| u == 0x205f
    ||| u == 0x3000
}

/// `s` without its leading white space.
pub open spec fn trim_start_of(s: Seq<char>) -> Seq<char>
    decreases s.len(),
{
    if s.len() > 0 && is_white_space(s[0]) {
        trim_start_of(s.drop_first())
    } else {
        s
    }
}

/// `s` without its trailing white space.
pub open spec fn trim_end_of(s: Seq<char>) -> Seq<char>
    decreases s.len(),
{
    if s.len() > 0 && is_white_space(s.last()) {
        trim_end_of(s.drop_last())
    } else {
        s
    }
}

/// `s` without leading and trailing white space.
pub open spec fn trimmed(s: Seq<char>) -> Seq<char> {
    trim_end_of(trim_start_of(s))
}

/// Relies on `str::trim`: it removes the leading and trailing characters
/// with the White_Space property.
#[verifier::external_body]
fn trim_text(s: &str) -> (r: &str)
    ensures
        r@ == trimmed(s@),
{
    s.trim()
}

/// Whether `s` is `null` in any mix of ASCII case.
pub open spec fn is_null_word(s: Seq<char>) -> bool {
    &&& s.len() == 4
    &&& (s[0] == 'n' || s[0] == 'N')
    &&& (s[1] == 'u' || s[1] == 'U')
    &&& (s[2] == 'l' || s[2] == 'L')
    &&& (s[3] == 'l' || s[3] == 'L')
}

/// Tests whether `s` is `null` ignoring ASCII case.
pub fn is_null_word_exec(s: &str) -> (r: bool)
    ensures
        r == is_null_word(s@),
{
    if s.unicode_len() != 4 {
        return false;
    }
    let c0 = s.get_char(0);
    let c1 = s.get_char(1);
    let c2 = s.get_char(2);
    let c3 = s.get_char(3);
    (c0 == 'n' || c0 == 'N') && (c1 == 'u' || c1 == 'U') && (c2 == 'l' || c2 == 'L') && (c3 == 'l'
        || c3 == 'L')
}

/// The outcome for a rate given as text: blank or `null` text is no rate,
/// anything else is its trimmed text to parse.
pub open spec fn text_outcome_is(r: RateOutcome, s: Seq<char>) -> bool {
    let t = trimmed(s);
    if t.len() == 0 || is_null_word(t) {
        r is Absent
    } else {
        r is Parse && r->Parse_0@ == t
    }
}

/// Normalizes a rate as it arrived: absent, `null` and values that are
/// neither numbers nor strings give no rate; numbers are kept; strings are
/// trimmed, and blank or `null` text gives no rate.
pub fn normalize_rate(input: &RateInput) -> (r: RateOutcome)
    ensures
        match input {
            RateInput::Missing | RateInput::Null | RateInput::Other => r is Absent,
            RateInput::Number(n) => r is Number && r->Number_0@ == n@,
            RateInput::Text(s) => text_outcome_is(r, s@),
        },
{
    match input {
        RateInput::Missing | RateInput::Null | RateInput::Other => RateOutcome::Absent,
        RateInput::Number(n) => RateOutcome::Number(n.clone()),
        RateInput::Text(s) => normalize_rate_text(s.as_str()),
    }
}

/// Normalizes a rate given as text.
pub fn normalize_rate_text(s: &str) -> (r: RateOutcome)
    ensures
        text_outcome_is(r, s@),
{
    let t = trim_text(s);
    if t.unicode_len() == 0 || is_null_word_exec(t) {
        RateOutcome::Absent
    } else {
        RateOutcome::Parse(t.to_string())
    }
}

} // verus!
