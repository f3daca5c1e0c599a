//! The configuration document as the engine consumes it: already parsed by
//! the host into plain values, with each field kept in the shape the engine
//! must validate (text, number, absent, or anything else).

use vstd::prelude::*;

verus! {

/// A scalar field of the configuration document: a text field, an unsigned
/// number, or a value of any other shape (which the engine rejects wherever
/// it needs one of the first two).
#[derive(Clone, PartialEq, Eq, Debug)]
pub enum ConfigValue {
    Text(String),
    Number(u64),
    Other,
}

/// The configuration object of one plugin: its `type` discriminator and the
/// optional `count` field that a counting source reads.
#[derive(Clone, PartialEq, Eq, Debug)]
pub struct PluginConfig {
    pub plugin_type: Option<ConfigValue>,
    pub count: Option<ConfigValue>,
}

/// The whole configuration document.
#[derive(Clone, PartialEq, Eq, Debug)]
pub struct Config {
    pub start_time: Option<ConfigValue>,
    pub end_time: Option<ConfigValue>,
    pub step_width: Option<ConfigValue>,
    pub replayer_list: Option<Vec<PluginConfig>>,
    pub callbacker: Option<PluginConfig>,
    pub sender_controller: Option<PluginConfig>,
}

/// A construction failure: a required field is missing or malformed, or a
/// `type` discriminator names no known plugin.
#[derive(Clone, Copy, PartialEq, Eq, Structural, Debug)]
pub enum InitError {
    Configuration,
    UnknownPluginType,
}

/// The `type` discriminator of a plugin configuration, when it is present
/// and is a text field.
pub open spec fn plugin_type_of(c: PluginConfig) -> Option<Seq<char>> {
    match c.plugin_type {
        Some(ConfigValue::Text(s)) => Some(s@),
        _ => None,
    }
}

pub open spec fn is_digit(c: char) -> bool {
    48 <= c as u32 <= 57
}

pub open spec fn digit_val(c: char) -> int {
    c as u32 - 48
}

/// A non-empty string of decimal digits.
pub open spec fn is_dec_string(s: Seq<char>) -> bool {
    s.len() > 0 && forall|i: int| 0 <= i < s.len() ==> is_digit(#[trigger] s[i])
}

/// The value of a string of decimal digits, most significant first.
pub open spec fn dec_value(s: Seq<char>) -> int
    decreases s.len(),
{
    if s.len() == 0 {
        0
    } else {
        dec_value(s.drop_last()) * 10 + digit_val(s.last())
    }
}

proof fn lemma_dec_value_take_succ(s: Seq<char>, i: int)
    requires
        0 <= i < s.len(),
    ensures
        dec_value(s.take(i + 1)) == dec_value(s.take(i)) * 10 + digit_val(s[i]),
{
    assert(s.take(i + 1).drop_last() =~= s.take(i));
    assert(s.take(i + 1).last() == s[i]);
}

proof fn lemma_dec_value_nonneg(s: Seq<char>)
    requires
        forall|i: int| 0 <= i < s.len() ==> is_digit(#[trigger] s[i]),
    ensures
        dec_value(s) >= 0,
    decreases s.len(),
{
    if s.len() > 0 {
        lemma_dec_value_nonneg(s.drop_last());
    }
}

proof fn lemma_dec_value_take_grows(s: Seq<char>, i: int)
    requires
        forall|k: int| 0 <= k < s.len() ==> is_digit(#[trigger] s[k]),
        0 <= i <= s.len(),
    ensures
        dec_value(s.take(i)) <= dec_value(s),
    decreases s.len() - i,
{
    if i == s.len() {
        assert(s.take(i) =~= s);
    } else {
        lemma_dec_value_take_succ(s, i);
        lemma_dec_value_nonneg(s.take(i));
        assert(forall|k: int| 0 <= k < s.take(i).len() ==> is_digit(#[trigger] s.take(i)[k]));
        lemma_dec_value_take_grows(s, i + 1);
    }
}

/// Parses a non-empty decimal string into a `u64`. Returns `None` exactly
/// when the string is not a plain decimal numeral or its value does not fit.
pub fn parse_u64(s: &str) -> (r: Option<u64>)
    ensures
        match r {
            Some(v) => is_dec_string(s@) && v == dec_value(s@),
            None => !(is_dec_string(s@) && dec_value(s@) <= u64::MAX),
        },
{
    let n = s.unicode_len();
    if n == 0 {
        return None;
    }
    let mut acc: u64 = 0;
    let mut i: usize = 0;
    while i < n
        invariant
            0 < n == s@.len(),
            i <= n,
            forall|k: int| 0 <= k < i ==> is_digit(#[trigger] s@[k]),
            acc == dec_value(s@.take(i as int)),
        decreases n - i,
    {
        let c = s.get_char(i);
        let d = c as u32;
        if d < 48 || d > 57 {
            return None;
        }
        let dd: u64 = (d - 48) as u64;
        proof {
            lemma_dec_value_take_succ(s@, i as int);
            lemma_dec_value_nonneg(s@.take(i as int));
        }
        let acc2: u64 = match acc.checked_mul(10) {
            Some(m) => match m.checked_add(dd) {
                Some(a) => a,
                None => {
                    proof {
                        if is_dec_string(s@) {
                            lemma_dec_value_take_grows(s@, i as int + 1);
                        }
                    }
                    return None;
                },
            },
            None => {
                proof {
                    if is_dec_string(s@) {
                        lemma_dec_value_take_grows(s@, i as int + 1);
                    }
                }
                return None;
            },
        };
        acc = acc2;
        i = i + 1;
    }
    proof {
        assert(s@.take(n as int) =~= s@);
    }
    Some(acc)
}

/// Character-by-character string equality, with equality of the views as its
/// exact meaning.
pub fn str_eq(a: &str, b: &str) -> (r: bool)
    ensures
        r == (a@ == b@),
{
    let na = a.unicode_len();
    let nb = b.unicode_len();
    if na != nb {
        return false;
    }
    let mut i: usize = 0;
    while i < na
        invariant
            na == a@.len(),
            nb == b@.len(),
            na == nb,
            i <= na,
            forall|k: int| 0 <= k < i ==> a@[k] == b@[k],
        decreases na - i,
    {
        let ca = a.get_char(i);
        let cb = b.get_char(i);
        if ca != cb {
            return false;
        }
        i = i + 1;
    }
    proof {
        assert(a@ =~= b@);
    }
    true
}

} // verus!
