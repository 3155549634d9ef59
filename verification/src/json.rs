use vstd::prelude::*;
use vstd::string::*;
use crate::text::{digit_char, push_char, spec_decimal, u64_to_string};

verus! {

// ---------------------------------------------------------------------------
// JSON number grammar
// ---------------------------------------------------------------------------
/// Scanner state for the JSON number grammar
/// `-? (0 | [1-9][0-9]*) (. [0-9]+)? ([eE] [+-]? [0-9]+)?`.
#[derive(PartialEq, Eq, Structural, Clone, Copy, Debug)]
pub enum NumState {
    Start,
    Minus,
    IntZero,
    IntDigits,
    Dot,
    Frac,
    ExpStart,
    ExpSign,
    ExpDigits,
    Reject,
}

pub open spec fn is_digit(c: char) -> bool {
    c == '0' || c == '1' || c == '2' || c == '3' || c == '4' || c == '5' || c == '6' || c == '7'
        || c == '8' || c == '9'
}

pub open spec fn num_step(st: NumState, c: char) -> NumState {
    match st {
        NumState::Start => if c == '-' {
            NumState::Minus
        } else if c == '0' {
            NumState::IntZero
        } else if is_digit(c) {
            NumState::IntDigits
        } else {
            NumState::Reject
        },
        NumState::Minus => if c == '0' {
            NumState::IntZero
        } else if is_digit(c) {
            NumState::IntDigits
        } else {
            NumState::Reject
        },
        NumState::IntZero => if c == '.' {
            NumState::Dot
        } else if c == 'e' || c == 'E' {
            NumState::ExpStart
        } else {
            NumState::Reject
        },
        NumState::IntDigits => if is_digit(c) {
            NumState::IntDigits
        } else if c == '.' {
            NumState::Dot
        } else if c == 'e' || c == 'E' {
            NumState::ExpStart
        } else {
            NumState::Reject
        },
        NumState::Dot => if is_digit(c) {
            NumState::Frac
        } else {
            NumState::Reject
        },
        NumState::Frac => if is_digit(c) {
            NumState::Frac
        } else if c == 'e' || c == 'E' {
            NumState::ExpStart
        } else {
            NumState::Reject
        },
        NumState::ExpStart => if c == '+' || c == '-' {
            NumState::ExpSign
        } else if is_digit(c) {
            NumState::ExpDigits
        } else {
            NumState::Reject
        },
        NumState::ExpSign => if is_digit(c) {
            NumState::ExpDigits
        } else {
            NumState::Reject
        },
        NumState::ExpDigits => if is_digit(c) {
            NumState::ExpDigits
        } else {
            NumState::Reject
        },
        NumState::Reject => NumState::Reject,
    }
}

pub open spec fn num_accepting(st: NumState) -> bool {
    st == NumState::IntZero || st == NumState::IntDigits || st == NumState::Frac || st
        == NumState::ExpDigits
}

pub open spec fn num_scan(st: NumState, s: Seq<char>) -> NumState
    decreases s.len(),
{
    if s.len() == 0 {
        st
    } else {
        num_scan(num_step(st, s[0]), s.drop_first())
    }
}

/// The text is a well-formed JSON number literal.
pub open spec fn is_json_number(s: Seq<char>) -> bool {
    num_accepting(num_scan(NumState::Start, s))
}

proof fn lemma_num_scan_snoc(st: NumState, s: Seq<char>, c: char)
    ensures
        num_scan(st, s.push(c)) == num_step(num_scan(st, s), c),
    decreases s.len(),
{
    let t = s.push(c);
    if s.len() == 0 {
        assert(t[0] == c);
        assert(t.drop_first() =~= Seq::<char>::empty());
        assert(num_scan(st, t) == num_scan(num_step(st, c), t.drop_first()));
        assert(num_scan(num_step(st, c), t.drop_first()) == num_step(st, c));
        assert(num_scan(st, s) == st);
    } else {
        assert(t[0] == s[0]);
        assert(t.drop_first() =~= s.drop_first().push(c));
        assert(num_scan(st, t) == num_scan(num_step(st, s[0]), t.drop_first()));
        lemma_num_scan_snoc(num_step(st, s[0]), s.drop_first(), c);
        assert(num_scan(st, s) == num_scan(num_step(st, s[0]), s.drop_first()));
    }
}

proof fn lemma_num_scan_reject(s: Seq<char>)
    ensures
        num_scan(NumState::Reject, s) == NumState::Reject,
    decreases s.len(),
{
    if s.len() > 0 {
        lemma_num_scan_reject(s.drop_first());
    }
}

/// A JSON number starts with a minus sign or a digit; in particular it is
/// never empty, never starts with a quote, and never spells `true` or
/// `false`.
pub proof fn lemma_json_number_first_char(s: Seq<char>)
    requires
        is_json_number(s),
    ensures
        s.len() > 0,
        s[0] == '-' || is_digit(s[0]),
{
    if s.len() == 0 {
    } else {
        if !(s[0] == '-' || is_digit(s[0])) {
            assert(num_step(NumState::Start, s[0]) == NumState::Reject);
            lemma_num_scan_reject(s.drop_first());
        }
    }
}

proof fn lemma_decimal_scan(n: nat)
    ensures
        num_scan(NumState::Start, spec_decimal(n)) == if n == 0 {
            NumState::IntZero
        } else {
            NumState::IntDigits
        },
    decreases n,
{
    if n < 10 {
        let s = spec_decimal(n);
        assert(s == seq![digit_char(n as int)]);
        assert(s.drop_first() =~= Seq::<char>::empty());
        assert(is_digit(digit_char(n as int)));
        assert(num_scan(NumState::Start, s) == num_scan(
            num_step(NumState::Start, s[0]),
            s.drop_first(),
        ));
    } else {
        lemma_decimal_scan(n / 10);
        assert(spec_decimal(n) =~= spec_decimal(n / 10).push(digit_char((n % 10) as int)));
        assert(is_digit(digit_char((n % 10) as int)));
        lemma_num_scan_snoc(NumState::Start, spec_decimal(n / 10), digit_char((n % 10) as int));
    }
}

/// The decimal rendering of a natural number is a well-formed JSON number.
pub proof fn lemma_decimal_is_json_number(n: nat)
    ensures
        is_json_number(spec_decimal(n)),
{
    lemma_decimal_scan(n);
}

fn num_step_exec(st: NumState, c: char) -> (r: NumState)
    ensures
        r == num_step(st, c),
{
    let digit = c == '0' || c == '1' || c == '2' || c == '3' || c == '4' || c == '5' || c == '6'
        || c == '7' || c == '8' || c == '9';
    match st {
        NumState::Start => if c == '-' {
            NumState::Minus
        } else if c == '0' {
            NumState::IntZero
        } else if digit {
            NumState::IntDigits
        } else {
            NumState::Reject
        },
        NumState::Minus => if c == '0' {
            NumState::IntZero
        } else if digit {
            NumState::IntDigits
        } else {
            NumState::Reject
        },
        NumState::IntZero => if c == '.' {
            NumState::Dot
        } else if c == 'e' || c == 'E' {
            NumState::ExpStart
        } else {
            NumState::Reject
        },
        NumState::IntDigits => if digit {
            NumState::IntDigits
        } else if c == '.' {
            NumState::Dot
        } else if c == 'e' || c == 'E' {
            NumState::ExpStart
        } else {
            NumState::Reject
        },
        NumState::Dot => if digit {
            NumState::Frac
        } else {
            NumState::Reject
        },
        NumState::Frac => if digit {
            NumState::Frac
        } else if c == 'e' || c == 'E' {
            NumState::ExpStart
        } else {
            NumState::Reject
        },
        NumState::ExpStart => if c == '+' || c == '-' {
            NumState::ExpSign
        } else if digit {
            NumState::ExpDigits
        } else {
            NumState::Reject
        },
        NumState::ExpSign => if digit {
            NumState::ExpDigits
        } else {
            NumState::Reject
        },
        NumState::ExpDigits => if digit {
            NumState::ExpDigits
        } else {
            NumState::Reject
        },
        NumState::Reject => NumState::Reject,
    }
}

/// Decide whether the text is a well-formed JSON number literal.
pub fn check_json_number(s: &str) -> (r: bool)
    ensures
        r == is_json_number(s@),
{
    let n = s.unicode_len();
    let mut st = NumState::Start;
    let mut i: usize = 0;
    while i < n
        invariant
            n == s@.len(),
            0 <= i <= n,
            st == num_scan(NumState::Start, s@.subrange(0, i as int)),
        decreases n - i,
    {
        let c = s.get_char(i);
        proof {
            assert(s@.subrange(0, i as int + 1) =~= s@.subrange(0, i as int).push(s@[i as int]));
            lemma_num_scan_snoc(NumState::Start, s@.subrange(0, i as int), s@[i as int]);
        }
        st = num_step_exec(st, c);
        i += 1;
    }
    proof {
        assert(s@.subrange(0, n as int) =~= s@);
    }
    match st {
        NumState::IntZero => true,
        NumState::IntDigits => true,
        NumState::Frac => true,
        NumState::ExpDigits => true,
        _ => false,
    }
}

// ---------------------------------------------------------------------------
// JSON string escaping
// ---------------------------------------------------------------------------
/// How one character appears inside a JSON string literal. The quote, the
/// backslash and the common control characters are escaped; every other
/// character stands for itself.
pub open spec fn escape_char(c: char) -> Seq<char> {
    if c == '"' {
        seq!['\\', '"']
    } else if c == '\\' {
        seq!['\\', '\\']
    } else if c == '\n' {
        seq!['\\', 'n']
    } else if c == '\r' {
        seq!['\\', 'r']
    } else if c == '\t' {
        seq!['\\', 't']
    } else {
        seq![c]
    }
}

pub open spec fn escape_string(s: Seq<char>) -> Seq<char>
    decreases s.len(),
{
    if s.len() == 0 {
        Seq::empty()
    } else {
        escape_char(s[0]) + escape_string(s.drop_first())
    }
}

proof fn lemma_escape_snoc(s: Seq<char>, c: char)
    ensures
        escape_string(s.push(c)) == escape_string(s) + escape_char(c),
    decreases s.len(),
{
    let t = s.push(c);
    if s.len() == 0 {
        assert(t[0] == c);
        assert(t.drop_first() =~= Seq::<char>::empty());
        assert(escape_string(t) == escape_char(c) + escape_string(t.drop_first()));
        assert(escape_string(t.drop_first()) =~= Seq::<char>::empty());
        assert(escape_string(s) =~= Seq::<char>::empty());
        assert(escape_string(t) =~= escape_string(s) + escape_char(c));
    } else {
        assert(t[0] == s[0]);
        assert(t.drop_first() =~= s.drop_first().push(c));
        assert(escape_string(t) == escape_char(s[0]) + escape_string(t.drop_first()));
        lemma_escape_snoc(s.drop_first(), c);
        assert(escape_string(s) == escape_char(s[0]) + escape_string(s.drop_first()));
        assert(escape_string(t) =~= escape_string(s) + escape_char(c));
    }
}

/// Escape a text for inclusion inside a JSON string literal.
pub fn escape_json_string(s: &str) -> (r: String)
    ensures
        r@ == escape_string(s@),
{
    let n = s.unicode_len();
    let mut out = String::new();
    let mut i: usize = 0;
    while i < n
        invariant
            n == s@.len(),
            0 <= i <= n,
            out@ == escape_string(s@.subrange(0, i as int)),
        decreases n - i,
    {
        let c = s.get_char(i);
        if c == '"' {
            push_char(&mut out, '\\');
            push_char(&mut out, '"');
        } else if c == '\\' {
            push_char(&mut out, '\\');
            push_char(&mut out, '\\');
        } else if c == '\n' {
            push_char(&mut out, '\\');
            push_char(&mut out, 'n');
        } else if c == '\r' {
            push_char(&mut out, '\\');
            push_char(&mut out, 'r');
        } else if c == '\t' {
            push_char(&mut out, '\\');
            push_char(&mut out, 't');
        } else {
            push_char(&mut out, c);
        }
        proof {
            assert(s@.subrange(0, i as int + 1) =~= s@.subrange(0, i as int).push(s@[i as int]));
            lemma_escape_snoc(s@.subrange(0, i as int), s@[i as int]);
            assert(out@ =~= escape_string(s@.subrange(0, i as int + 1)));
        }
        i += 1;
    }
    proof {
        assert(s@.subrange(0, n as int) =~= s@);
    }
    out
}

// ---------------------------------------------------------------------------
// JSON string unescaping
// ---------------------------------------------------------------------------
/// The character that a backslash escape stands for, if the escape is known.
pub open spec fn unescape_char(c: char) -> Option<char> {
    if c == '"' {
        Some('"')
    } else if c == '\\' {
        Some('\\')
    } else if c == '/' {
        Some('/')
    } else if c == 'n' {
        Some('\n')
    } else if c == 'r' {
        Some('\r')
    } else if c == 't' {
        Some('\t')
    } else if c == 'b' {
        Some('\u{0008}')
    } else if c == 'f' {
        Some('\u{000C}')
    } else {
        None
    }
}

/// Undo JSON string escaping; `None` on a lone or unknown backslash escape.
pub open spec fn unescape_string(s: Seq<char>) -> Option<Seq<char>>
    decreases s.len(),
{
    if s.len() == 0 {
        Some(Seq::empty())
    } else if s[0] == '\\' {
        if s.len() < 2 {
            None
        } else {
            match unescape_char(s[1]) {
                Some(c) => match unescape_string(s.skip(2)) {
                    Some(r) => Some(seq![c] + r),
                    None => None,
                },
                None => None,
            }
        }
    } else {
        match unescape_string(s.drop_first()) {
            Some(r) => Some(seq![s[0]] + r),
            None => None,
        }
    }
}

/// Unescaping undoes escaping: every text written with `escape_string` reads
/// back as itself.
pub proof fn lemma_unescape_escape(s: Seq<char>)
    ensures
        unescape_string(escape_string(s)) == Some(s),
    decreases s.len(),
{
    if s.len() == 0 {
        assert(escape_string(s) =~= Seq::<char>::empty());
    } else {
        let c = s[0];
        let rest = s.drop_first();
        lemma_unescape_escape(rest);
        let full = escape_string(s);
        assert(full == escape_char(c) + escape_string(rest));
        if c == '"' || c == '\\' || c == '\n' || c == '\r' || c == '\t' {
            assert(full.len() >= 2);
            assert(full[0] == '\\');
            assert(unescape_char(full[1]) == Some(c));
            assert(full.skip(2) =~= escape_string(rest));
            assert(seq![c] + rest =~= s);
        } else {
            assert(full[0] == c);
            assert(full[0] != '\\');
            assert(full.drop_first() =~= escape_string(rest));
            assert(seq![c] + rest =~= s);
        }
    }
}

fn unescape_char_exec(c: char) -> (r: Option<char>)
    ensures
        r == unescape_char(c),
{
    if c == '"' {
        Some('"')
    } else if c == '\\' {
        Some('\\')
    } else if c == '/' {
        Some('/')
    } else if c == 'n' {
        Some('\n')
    } else if c == 'r' {
        Some('\r')
    } else if c == 't' {
        Some('\t')
    } else if c == 'b' {
        Some('\u{0008}')
    } else if c == 'f' {
        Some('\u{000C}')
    } else {
        None
    }
}

/// Undo JSON string escaping over a text.
pub fn unescape_json_string(s: &str) -> (r: Option<String>)
    ensures
        match r {
            Some(out) => unescape_string(s@) == Some(out@),
            None => unescape_string(s@) is None,
        },
{
    let n = s.unicode_len();
    let mut out = String::new();
    let mut i: usize = 0;
    proof {
        assert(s@.skip(0) =~= s@);
    }
    while i < n
        invariant
            n == s@.len(),
            0 <= i <= n,
            match unescape_string(s@.skip(i as int)) {
                Some(tail) => unescape_string(s@) == Some(out@ + tail),
                None => unescape_string(s@) is None,
            },
        decreases n - i,
    {
        let ghost st = s@.skip(i as int);
        let ghost out0 = out@;
        let c = s.get_char(i);
        proof {
            assert(st.len() == n - i);
            assert(st[0] == s@[i as int]);
        }
        if c == '\\' {
            if i + 1 >= n {
                proof {
                    assert(st.len() < 2);
                    assert(unescape_string(st) is None);
                }
                return None;
            }
            let e = s.get_char(i + 1);
            proof {
                assert(st[1] == s@[i as int + 1]);
            }
            match unescape_char_exec(e) {
                None => {
                    proof {
                        assert(unescape_string(st) is None);
                    }
                    return None;
                },
                Some(c2) => {
                    push_char(&mut out, c2);
                    proof {
                        assert(st.skip(2) =~= s@.skip(i as int + 2));
                        match unescape_string(s@.skip(i as int + 2)) {
                            Some(tail) => {
                                assert(unescape_string(st) == Some(seq![c2] + tail));
                                assert(out0 + (seq![c2] + tail) =~= out@ + tail);
                            },
                            None => {
                                assert(unescape_string(st) is None);
                            },
                        }
                    }
                    i += 2;
                },
            }
        } else {
            push_char(&mut out, c);
            proof {
                assert(st.drop_first() =~= s@.skip(i as int + 1));
                match unescape_string(s@.skip(i as int + 1)) {
                    Some(tail) => {
                        assert(unescape_string(st) == Some(seq![c] + tail));
                        assert(out0 + (seq![c] + tail) =~= out@ + tail);
                    },
                    None => {
                        assert(unescape_string(st) is None);
                    },
                }
            }
            i += 1;
        }
    }
    proof {
        assert(s@.skip(n as int) =~= Seq::<char>::empty());
        assert(unescape_string(s@) == Some(out@ + Seq::<char>::empty()));
        assert(out@ + Seq::<char>::empty() =~= out@);
    }
    Some(out)
}

// ---------------------------------------------------------------------------
// JSON string literals
// ---------------------------------------------------------------------------
/// A text as a JSON string literal: quoted and escaped.
pub open spec fn json_string(s: Seq<char>) -> Seq<char> {
    seq!['"'] + escape_string(s) + seq!['"']
}

/// Append a text to the output as a JSON string literal.
pub fn append_json_string(out: &mut String, s: &str)
    ensures
        final(out)@ == old(out)@ + json_string(s@),
{
    push_char(out, '"');
    let esc = escape_json_string(s);
    out.append(esc.as_str());
    push_char(out, '"');
    proof {
        assert(out@ =~= old(out)@ + json_string(s@));
    }
}

// ---------------------------------------------------------------------------
// JSON objects
// ---------------------------------------------------------------------------
/// Rendered `"name":value` fields joined with commas.
pub open spec fn join_fields(fields: Seq<Seq<char>>) -> Seq<char>
    decreases fields.len(),
{
    if fields.len() == 0 {
        Seq::empty()
    } else if fields.len() == 1 {
        fields[0]
    } else {
        join_fields(fields.drop_last()) + seq![','] + fields.last()
    }
}

/// A JSON object over already rendered fields.
pub open spec fn json_object(fields: Seq<Seq<char>>) -> Seq<char> {
    seq!['{'] + join_fields(fields) + seq!['}']
}

/// The character sequences of a list of rendered fields.
pub open spec fn views_of(fields: Seq<String>) -> Seq<Seq<char>> {
    fields.map_values(|f: String| f@)
}

proof fn lemma_join_snoc(s: Seq<Seq<char>>, x: Seq<char>)
    ensures
        join_fields(s.push(x)) == if s.len() == 0 {
            x
        } else {
            join_fields(s) + seq![','] + x
        },
{
    let t = s.push(x);
    assert(t.last() == x);
    assert(t.drop_last() =~= s);
    if s.len() == 0 {
        assert(t.len() == 1);
        assert(t[0] == x);
    }
}

/// Render a JSON object from a list of rendered fields.
pub fn json_object_exec(fields: &Vec<String>) -> (r: String)
    ensures
        r@ == json_object(views_of(fields@)),
{
    let ghost views = views_of(fields@);
    let mut out = String::new();
    push_char(&mut out, '{');
    let mut i: usize = 0;
    proof {
        assert(views.take(0) =~= Seq::<Seq<char>>::empty());
        assert(out@ =~= seq!['{'] + join_fields(views.take(0)));
    }
    while i < fields.len()
        invariant
            views == views_of(fields@),
            views.len() == fields@.len(),
            0 <= i <= fields@.len(),
            out@ == seq!['{'] + join_fields(views.take(i as int)),
        decreases fields@.len() - i,
    {
        if i > 0 {
            push_char(&mut out, ',');
        }
        out.append(fields[i].as_str());
        proof {
            assert(views[i as int] == fields@[i as int]@);
            assert(views.take(i as int + 1) =~= views.take(i as int).push(views[i as int]));
            lemma_join_snoc(views.take(i as int), views[i as int]);
            assert(out@ =~= seq!['{'] + join_fields(views.take(i as int + 1)));
        }
        i += 1;
    }
    push_char(&mut out, '}');
    proof {
        assert(views.take(fields@.len() as int) =~= views);
        assert(out@ =~= json_object(views));
    }
    out
}

/// Render a `"name":"value"` field with a string value.
pub fn string_field(name: &str, value: &str) -> (r: String)
    ensures
        r@ == json_string(name@) + seq![':'] + json_string(value@),
{
    let mut out = String::new();
    append_json_string(&mut out, name);
    push_char(&mut out, ':');
    append_json_string(&mut out, value);
    proof {
        assert(out@ =~= json_string(name@) + seq![':'] + json_string(value@));
    }
    out
}

/// Render a `"name":value` field with an unsigned decimal value.
pub fn u32_field(name: &str, value: u32) -> (r: String)
    ensures
        r@ == json_string(name@) + seq![':'] + spec_decimal(value as nat),
{
    let mut out = String::new();
    append_json_string(&mut out, name);
    push_char(&mut out, ':');
    let num = u64_to_string(value as u64);
    out.append(num.as_str());
    proof {
        assert(out@ =~= json_string(name@) + seq![':'] + spec_decimal(value as nat));
    }
    out
}

/// Render a `"name":value` field with a JSON number value.
pub fn number_field(name: &str, value: &JsonNumber) -> (r: String)
    ensures
        r@ == json_string(name@) + seq![':'] + value@,
{
    let mut out = String::new();
    append_json_string(&mut out, name);
    push_char(&mut out, ':');
    out.append(value.as_text());
    proof {
        assert(out@ =~= json_string(name@) + seq![':'] + value@);
    }
    out
}

// ---------------------------------------------------------------------------
// JSON numbers as values
// ---------------------------------------------------------------------------
/// A JSON number carried as its literal text, exactly as it appears on the
/// wire. The text is checked against the JSON number grammar when the value
/// is built.
#[derive(Debug, Clone, PartialEq, Eq)]
pub struct JsonNumber {
    text: String,
}

impl View for JsonNumber {
    type V = Seq<char>;

    closed spec fn view(&self) -> Seq<char> {
        self.text@
    }
}

impl JsonNumber {
    /// The held text is a well-formed JSON number literal.
    pub open spec fn wf(&self) -> bool {
        is_json_number(self@)
    }

    /// Accept a number literal, or reject text that the JSON number grammar
    /// refuses.
    pub fn from_text(text: String) -> (r: Option<JsonNumber>)
        ensures
            match r {
                Some(num) => is_json_number(text@) && num@ == text@ && num.wf(),
                None => !is_json_number(text@),
            },
    {
        if check_json_number(text.as_str()) {
            Some(JsonNumber { text })
        } else {
            None
        }
    }

    /// The decimal rendering of an unsigned integer as a JSON number.
    pub fn from_u64(n: u64) -> (r: JsonNumber)
        ensures
            r@ == spec_decimal(n as nat),
            r.wf(),
    {
        proof {
            lemma_decimal_is_json_number(n as nat);
        }
        JsonNumber { text: u64_to_string(n) }
    }

    /// The number's literal text.
    pub fn as_text(&self) -> (r: &str)
        ensures
            r@ == self@,
    {
        self.text.as_str()
    }
}

} // verus!
