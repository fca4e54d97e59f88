//! The client settings a driver sends on connect. The set is closed and the
//! values are constants.

use vstd::prelude::*;
use crate::lists::{take_all, take_next};
use crate::text::{ascii_lower, chars_of, lower, lower_char, same, text_of};

verus! {

/// How many client settings there are.
pub const GUC_COUNT: usize = 18;

/// The settings, by their canonical names, with the value each reports.
pub open spec fn guc_nth(i: int) -> (Seq<char>, Seq<char>) {
    if i == 0 {
        ("client_encoding"@, "UTF8"@)
    } else if i == 1 {
        ("server_encoding"@, "UTF8"@)
    } else if i == 2 {
        ("server_version"@, "16.0"@)
    } else if i == 3 {
        ("datestyle"@, "ISO, MDY"@)
    } else if i == 4 {
        ("intervalstyle"@, "postgres"@)
    } else if i == 5 {
        ("timezone"@, "UTC"@)
    } else if i == 6 {
        ("application_name"@, ""@)
    } else if i == 7 {
        ("search_path"@, "\"$user\", public"@)
    } else if i == 8 {
        ("extra_float_digits"@, "1"@)
    } else if i == 9 {
        ("standard_conforming_strings"@, "on"@)
    } else if i == 10 {
        ("integer_datetimes"@, "on"@)
    } else if i == 11 {
        ("transaction_isolation"@, "read committed"@)
    } else if i == 12 {
        ("default_transaction_isolation"@, "read committed"@)
    } else if i == 13 {
        ("transaction_read_only"@, "off"@)
    } else if i == 14 {
        ("is_superuser"@, "on"@)
    } else if i == 15 {
        ("max_identifier_length"@, "63"@)
    } else if i == 16 {
        ("bytea_output"@, "hex"@)
    } else {
        ("session_authorization"@, "postgres"@)
    }
}

fn nth(i: usize) -> (r: (&'static str, &'static str))
    ensures
        (r.0@, r.1@) == guc_nth(i as int),
{
    if i == 0 {
        ("client_encoding", "UTF8")
    } else if i == 1 {
        ("server_encoding", "UTF8")
    } else if i == 2 {
        ("server_version", "16.0")
    } else if i == 3 {
        ("datestyle", "ISO, MDY")
    } else if i == 4 {
        ("intervalstyle", "postgres")
    } else if i == 5 {
        ("timezone", "UTC")
    } else if i == 6 {
        ("application_name", "")
    } else if i == 7 {
        ("search_path", "\"$user\", public")
    } else if i == 8 {
        ("extra_float_digits", "1")
    } else if i == 9 {
        ("standard_conforming_strings", "on")
    } else if i == 10 {
        ("integer_datetimes", "on")
    } else if i == 11 {
        ("transaction_isolation", "read committed")
    } else if i == 12 {
        ("default_transaction_isolation", "read committed")
    } else if i == 13 {
        ("transaction_read_only", "off")
    } else if i == 14 {
        ("is_superuser", "on")
    } else if i == 15 {
        ("max_identifier_length", "63")
    } else if i == 16 {
        ("bytea_output", "hex")
    } else {
        ("session_authorization", "postgres")
    }
}

/// A name without its spaces and underscores: `TIME ZONE` and `time_zone` are
/// one setting.
pub open spec fn squeezed(s: Seq<char>) -> Seq<char>
    decreases s.len(),
{
    if s.len() == 0 {
        Seq::empty()
    } else if s.last() == ' ' || s.last() == '_' {
        squeezed(s.drop_last())
    } else {
        squeezed(s.drop_last()).push(s.last())
    }
}

fn squeeze(s: &str) -> (r: String)
    ensures
        r@ == squeezed(s@),
{
    let chars = chars_of(s);
    let mut out: Vec<char> = Vec::new();
    let mut i: usize = 0;
    assert(s@.take(0) =~= Seq::<char>::empty());
    while i < chars.len()
        invariant
            i <= chars@.len(),
            chars@ == s@,
            out@ == squeezed(s@.take(i as int)),
        decreases chars@.len() - i,
    {
        proof {
            take_next(s@, i as int);
        }
        if chars[i] != ' ' && chars[i] != '_' {
            out.push(chars[i]);
        }
        i = i + 1;
    }
    proof {
        take_all(s@);
    }
    text_of(&out)
}

/// The setting that a squeezed name means, from `i` on.
pub open spec fn guc_from(wanted: Seq<char>, i: nat) -> Option<(Seq<char>, Seq<char>)>
    decreases GUC_COUNT - i,
{
    if i >= GUC_COUNT {
        None
    } else if squeezed(guc_nth(i as int).0) == wanted {
        Some(guc_nth(i as int))
    } else {
        guc_from(wanted, i + 1)
    }
}

/// The setting that a name means, in any of its spellings: its canonical name
/// and its value.
pub open spec fn guc_named(name: Seq<char>) -> Option<(Seq<char>, Seq<char>)> {
    guc_from(squeezed(lower(name)), 0)
}

/// The value of the setting that a name means.
pub open spec fn guc_value(name: Seq<char>) -> Option<Seq<char>> {
    match guc_named(name) {
        Some((_, value)) => Some(value),
        None => None,
    }
}

/// The canonical name of the setting that a name means.
pub open spec fn guc_title(name: Seq<char>) -> Option<Seq<char>> {
    match guc_named(name) {
        Some((title, _)) => Some(title),
        None => None,
    }
}

fn entry(name: &str) -> (r: Option<(&'static str, &'static str)>)
    ensures
        match r {
            Some((n, v)) => guc_named(name@) == Some((n@, v@)),
            None => guc_named(name@) is None,
        },
{
    let wanted = squeeze(ascii_lower(name).as_str());
    let mut i: usize = 0;
    while i < GUC_COUNT
        invariant
            i <= GUC_COUNT,
            wanted@ == squeezed(lower(name@)),
            guc_from(wanted@, i as nat) == guc_named(name@),
        decreases GUC_COUNT - i,
    {
        let (known, value) = nth(i);
        if same(squeeze(known).as_str(), wanted.as_str()) {
            return Some((known, value));
        }
        i = i + 1;
    }
    None
}

/// The value a client setting reports, if it is one.
pub fn guc(name: &str) -> (r: Option<&'static str>)
    ensures
        match r {
            Some(v) => guc_value(name@) == Some(v@),
            None => guc_value(name@) is None,
        },
{
    match entry(name) {
        Some((_, value)) => Some(value),
        None => None,
    }
}

/// The canonical name of a client setting, if it is one.
pub fn guc_name(name: &str) -> (r: Option<&'static str>)
    ensures
        match r {
            Some(n) => guc_title(name@) == Some(n@),
            None => guc_title(name@) is None,
        },
{
    match entry(name) {
        Some((known, _)) => Some(known),
        None => None,
    }
}

/// The value a client setting reports, if it is one.
pub fn client_guc(name: &str) -> (r: Option<&'static str>)
    ensures
        match r {
            Some(v) => guc_value(name@) == Some(v@),
            None => guc_value(name@) is None,
        },
{
    guc(name)
}

/// Making letters small twice makes them small once.
pub proof fn lower_twice(s: Seq<char>)
    ensures
        lower(lower(s)) == lower(s),
{
    assert forall|i: int| 0 <= i < s.len() implies lower_char(lower_char(s[i])) == lower_char(
        s[i],
    ) by {}
    assert(lower(lower(s)) =~= lower(s));
}

/// The case a setting is written in changes nothing.
pub proof fn guc_ignores_case(name: Seq<char>)
    ensures
        guc_named(lower(name)) == guc_named(name),
{
    lower_twice(name);
}

} // verus!
