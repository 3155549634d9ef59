use vstd::prelude::*;
use vstd::string::*;
use crate::json::{
    append_json_string, check_json_number, is_json_number, json_string,
    escape_string, lemma_json_number_first_char, lemma_unescape_escape, unescape_json_string,
    unescape_string, JsonNumber,
};
use crate::string_map::StringMap;
use crate::text::strings_equal;

verus! {

/// One reported data point: a value for a concept, entity and period.
#[derive(Debug)]
pub struct Fact {
    pub id: String,
    pub concept_name: String,
    pub concept_label: Option<String>,
    pub entity_id: String,
    pub entity_name: Option<String>,
    pub period_start: Option<String>,
    pub period_end: String,
    pub value: FactValue,
    pub unit: Option<String>,
    pub dimensions: Option<StringMap>,
    pub report_id: String,
    pub filing_url: Option<String>,
}

/// A fact's reported value: a string, a number, or a boolean. On the wire
/// the union is tagged only by JSON shape; a number is carried as its
/// literal text.
#[derive(Debug, Clone, PartialEq, Eq)]
pub enum FactValue {
    String(String),
    Number(JsonNumber),
    Boolean(bool),
}

/// The mathematical model of a fact value.
pub enum FactValueModel {
    Str(Seq<char>),
    Num(Seq<char>),
    Bool(bool),
}

impl View for FactValue {
    type V = FactValueModel;

    open spec fn view(&self) -> FactValueModel {
        match self {
            FactValue::String(s) => FactValueModel::Str(s@),
            FactValue::Number(n) => FactValueModel::Num(n@),
            FactValue::Boolean(b) => FactValueModel::Bool(*b),
        }
    }
}

/// A number value holds a well-formed JSON number literal.
pub open spec fn value_model_wf(m: FactValueModel) -> bool {
    match m {
        FactValueModel::Num(t) => is_json_number(t),
        _ => true,
    }
}

/// The bare JSON scalar that a fact value serializes to: a string value as a
/// quoted, escaped string literal; a number as its literal text; a boolean
/// as `true` or `false`.
pub open spec fn spec_value_to_json(m: FactValueModel) -> Seq<char> {
    match m {
        FactValueModel::Str(s) => json_string(s),
        FactValueModel::Num(t) => t,
        FactValueModel::Bool(b) => if b {
            "true"@
        } else {
            "false"@
        },
    }
}

/// Read a bare JSON scalar: try a string, then a number, then a boolean, and
/// accept the first structurally valid interpretation.
pub open spec fn spec_value_from_json(s: Seq<char>) -> Option<FactValueModel> {
    if s.len() > 0 && s[0] == '"' {
        if s.len() >= 2 && s.last() == '"' {
            match unescape_string(s.subrange(1, s.len() - 1)) {
                Some(r) => Some(FactValueModel::Str(r)),
                None => None,
            }
        } else {
            None
        }
    } else if is_json_number(s) {
        Some(FactValueModel::Num(s))
    } else if s == "true"@ {
        Some(FactValueModel::Bool(true))
    } else if s == "false"@ {
        Some(FactValueModel::Bool(false))
    } else {
        None
    }
}

impl FactValue {
    /// A number value holds a well-formed JSON number literal.
    pub open spec fn wf(&self) -> bool {
        value_model_wf(self@)
    }

    /// Render the value as its bare JSON scalar.
    pub fn to_json(&self) -> (r: String)
        ensures
            r@ == spec_value_to_json(self@),
    {
        match self {
            FactValue::String(s) => {
                let mut out = String::new();
                append_json_string(&mut out, s.as_str());
                proof {
                    assert(out@ =~= json_string(s@));
                }
                out
            },
            FactValue::Number(n) => String::from_str(n.as_text()),
            FactValue::Boolean(b) => if *b {
                String::from_str("true")
            } else {
                String::from_str("false")
            },
        }
    }

    /// Read a bare JSON scalar, accepting the first structurally valid
    /// interpretation among string, number and boolean.
    pub fn from_json(s: &str) -> (r: Option<FactValue>)
        ensures
            match r {
                Some(v) => spec_value_from_json(s@) == Some(v@) && v.wf(),
                None => spec_value_from_json(s@) is None,
            },
    {
        let n = s.unicode_len();
        if n > 0 && s.get_char(0) == '"' {
            if n >= 2 && s.get_char(n - 1) == '"' {
                let inner = s.substring_char(1, n - 1);
                match unescape_json_string(inner) {
                    Some(out) => Some(FactValue::String(out)),
                    None => None,
                }
            } else {
                None
            }
        } else if check_json_number(s) {
            match JsonNumber::from_text(String::from_str(s)) {
                Some(num) => Some(FactValue::Number(num)),
                None => {
                    proof {
                        assert(false);
                    }
                    None
                },
            }
        } else if strings_equal(s, "true") {
            Some(FactValue::Boolean(true))
        } else if strings_equal(s, "false") {
            Some(FactValue::Boolean(false))
        } else {
            None
        }
    }
}

/// Serializing a well-formed fact value and reading the text back yields the
/// value unchanged, for each of the three variants.
pub proof fn lemma_value_round_trip(m: FactValueModel)
    requires
        value_model_wf(m),
    ensures
        spec_value_from_json(spec_value_to_json(m)) == Some(m),
{
    match m {
        FactValueModel::Str(s) => {
            let j = json_string(s);
            assert(j.len() >= 2);
            assert(j[0] == '"');
            assert(j.last() == '"');
            assert(j.subrange(1, j.len() - 1) =~= escape_string(s));
            lemma_unescape_escape(s);
        },
        FactValueModel::Num(t) => {
            lemma_json_number_first_char(t);
        },
        FactValueModel::Bool(b) => {
            reveal_strlit("true");
            reveal_strlit("false");
            if b {
                if is_json_number("true"@) {
                    lemma_json_number_first_char("true"@);
                    assert(false);
                }
            } else {
                if is_json_number("false"@) {
                    lemma_json_number_first_char("false"@);
                    assert(false);
                }
            }
        },
    }
}

/// The reporting context a fact was observed in.
#[derive(Debug)]
pub struct FactContext {
    pub entity_id: String,
    pub entity_name: Option<String>,
    pub period_start: Option<String>,
    pub period_end: String,
    pub dimensions: StringMap,
}

} // verus!
