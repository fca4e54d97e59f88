//! What the string functions make of texts.

use vstd::prelude::*;
use crate::ast::{str_func_text, StrFunc};
use crate::compile::row::{concat_of, is_nullish, string_result, text_wanted};
use crate::error::SqlErrorV;
use crate::meaning::groups::in_capitals;
use crate::parser::row::string_named;
use crate::scan::{find_from, stands_at, trim_back, trim_front, trimmed};
use crate::strings::{fields_from, fields_of, replaced_from};
use crate::text::{lowercase, uppercase, white_space};
use crate::value::SqlValueV;

verus! {

// ── parts of a text ──────────────────────────────────────────────────────

/// Whether a result is a text.
pub open spec fn is_text(r: Result<SqlValueV, SqlErrorV>, text: Seq<char>) -> bool {
    r == Ok::<SqlValueV, SqlErrorV>(SqlValueV::Text(text))
}

/// `left(s, n)` and `right(s, -n)` make up `s`, except that nothing is left of
/// none and none: the first is `n` characters long, or all but the last `-n`, as
/// far as there are so many.
pub proof fn left_and_right_make_up_the_text(s: Seq<char>, n: i64)
    requires
        n != i64::MIN,
        s.len() <= i64::MAX,
    ensures
        ({
            let neg = (0 - n) as i64;
            let l = string_result(StrFunc::Left, seq![SqlValueV::Text(s), SqlValueV::Int(n)]);
            let r = string_result(StrFunc::Right, seq![SqlValueV::Text(s), SqlValueV::Int(neg)]);
            &&& l is Ok && l->Ok_0 is Text
            &&& r is Ok && r->Ok_0 is Text
            &&& n != 0 ==> l->Ok_0->Text_0 + r->Ok_0->Text_0 == s
            &&& n == 0 ==> l->Ok_0->Text_0.len() == 0 && r->Ok_0->Text_0.len() == 0
            &&& 0 <= n <= s.len() ==> l->Ok_0->Text_0.len() == n
            &&& n > s.len() ==> l->Ok_0->Text_0 == s
            &&& -s.len() <= n < 0 ==> r->Ok_0->Text_0.len() == -n
            &&& n < -s.len() ==> r->Ok_0->Text_0 == s
        }),
{
    let neg = (0 - n) as i64;
    let l = string_result(StrFunc::Left, seq![SqlValueV::Text(s), SqlValueV::Int(n)]);
    let r = string_result(StrFunc::Right, seq![SqlValueV::Text(s), SqlValueV::Int(neg)]);
    if n != 0 {
        assert(l->Ok_0->Text_0 + r->Ok_0->Text_0 =~= s);
    }
    if n > s.len() {
        assert(l->Ok_0->Text_0 =~= s);
    }
    if n < -s.len() {
        assert(r->Ok_0->Text_0 =~= s);
    }
}

/// `substring(s, from, count)` holds the characters at the positions from `from`
/// on, `count` of them, counted from one, that lie in `s`; without a count, all
/// from `from` on.
pub proof fn substring_holds_its_positions(s: Seq<char>, from: i64, count: Option<i64>)
    requires
        count is Some ==> count->0 >= 0,
    ensures
        ({
            let args = match count {
                None => seq![SqlValueV::Text(s), SqlValueV::Int(from)],
                Some(n) => seq![SqlValueV::Text(s), SqlValueV::Int(from), SqlValueV::Int(n)],
            };
            let r = string_result(StrFunc::Substring, args);
            let first: int = if from < 1 { 1 } else { from as int };
            let end = if count is Some && from + count->0 <= s.len() {
                from + count->0
            } else {
                s.len() as int + 1
            };
            &&& r is Ok && r->Ok_0 is Text
            &&& r->Ok_0->Text_0.len() == if first < end { end - first } else { 0 }
            &&& forall|p: int|
                first <= p < end ==> #[trigger] s[p - 1] == r->Ok_0->Text_0[p - first]
        }),
{
}

/// A count that is negative is refused.
pub proof fn negative_count_is_refused(s: Seq<char>, from: i64, n: i64)
    ensures
        string_result(
            StrFunc::Substring,
            seq![SqlValueV::Text(s), SqlValueV::Int(from), SqlValueV::Int(n)],
        ) is Err <==> n < 0,
{
}

/// `trim(s)` is `s` without the white space at its ends, and has none at its own.
pub proof fn trim_leaves_the_middle(s: Seq<char>)
    ensures
        exists|a: Seq<char>, m: Seq<char>, b: Seq<char>|
            {
                &&& s == #[trigger] (a + m + b)
                &&& is_text(string_result(StrFunc::Trim, seq![SqlValueV::Text(s)]), m)
                &&& forall|i: int| 0 <= i < a.len() ==> white_space(#[trigger] a[i])
                &&& forall|i: int| 0 <= i < b.len() ==> white_space(#[trigger] b[i])
                &&& m.len() > 0 ==> !white_space(m[0]) && !white_space(m.last())
            },
{
    let t = trim_front(s);
    front_is_white(s);
    back_is_white(t);
    let m = trimmed(s);
    let a = s.take(s.len() - t.len());
    let b = t.skip(m.len() as int);
    assert(a + m + b =~= s);
}

proof fn front_is_white(s: Seq<char>)
    ensures
        trim_front(s).len() <= s.len(),
        s.skip(s.len() - trim_front(s).len()) == trim_front(s),
        forall|i: int| 0 <= i < s.len() - trim_front(s).len() ==> white_space(#[trigger] s[i]),
        trim_front(s).len() > 0 ==> !white_space(trim_front(s)[0]),
    decreases s.len(),
{
    if s.len() > 0 && white_space(s[0]) {
        let rest = s.drop_first();
        front_is_white(rest);
        let k = s.len() - trim_front(s).len();
        assert(s.skip(k) =~= rest.skip(k - 1));
        assert forall|i: int| 0 <= i < k implies white_space(#[trigger] s[i]) by {
            if i > 0 {
                assert(s[i] == rest[i - 1]);
            }
        }
    } else {
        assert(s.skip(0) =~= s);
    }
}

proof fn back_is_white(s: Seq<char>)
    ensures
        trim_back(s).len() <= s.len(),
        s.take(trim_back(s).len() as int) == trim_back(s),
        forall|i: int| trim_back(s).len() <= i < s.len() ==> white_space(#[trigger] s[i]),
        trim_back(s).len() > 0 ==> !white_space(trim_back(s).last()),
    decreases s.len(),
{
    if s.len() > 0 && white_space(s.last()) {
        let rest = s.drop_last();
        back_is_white(rest);
        let k = trim_back(s).len() as int;
        assert(s.take(k) =~= rest.take(k));
        assert forall|i: int| k <= i < s.len() implies white_space(#[trigger] s[i]) by {
            if i < s.len() - 1 {
                assert(s[i] == rest[i]);
            }
        }
    } else {
        assert(s.take(s.len() as int) =~= s);
    }
}

/// The length is the number of characters, and the case functions are those of
/// the whole text.
pub proof fn lengths_and_cases(s: Seq<char>)
    requires
        s.len() <= i64::MAX,
    ensures
        string_result(StrFunc::Length, seq![SqlValueV::Text(s)]) == Ok::<SqlValueV, SqlErrorV>(
            SqlValueV::Int(s.len() as i64),
        ),
        is_text(string_result(StrFunc::Lower, seq![SqlValueV::Text(s)]), lowercase(s)),
        is_text(string_result(StrFunc::Upper, seq![SqlValueV::Text(s)]), uppercase(s)),
{
}

/// `concat` is the texts of its arguments that are there, one behind the other.
pub proof fn concat_joins(args: Seq<SqlValueV>, v: SqlValueV)
    requires
        string_result(StrFunc::Concat, args.push(v)) is Ok,
    ensures
        string_result(StrFunc::Concat, args) is Ok,
        string_result(StrFunc::Concat, args)->Ok_0 is Text,
        is_text(
            string_result(StrFunc::Concat, args.push(v)),
            string_result(StrFunc::Concat, args)->Ok_0->Text_0 + if is_nullish(v) {
                Seq::empty()
            } else {
                text_wanted(v, "concat"@)->Ok_0
            },
        ),
        is_text(string_result(StrFunc::Concat, Seq::empty()), Seq::empty()),
{
    let all = args.push(v);
    concat_of_fewer(args, v, args.len());
    if is_nullish(v) {
        let text = string_result(StrFunc::Concat, args)->Ok_0->Text_0;
        assert(text + Seq::<char>::empty() =~= text);
    }
    assert(concat_of(Seq::empty(), 0) == Ok::<Seq<char>, SqlErrorV>(Seq::empty()));
}

proof fn concat_of_fewer(args: Seq<SqlValueV>, v: SqlValueV, n: nat)
    requires
        n <= args.len(),
    ensures
        concat_of(args.push(v), n) == concat_of(args, n),
    decreases n,
{
    if n > 0 {
        concat_of_fewer(args, v, (n - 1) as nat);
        assert(args.push(v)[n - 1] == args[n - 1]);
    }
}

// ── places in a text ─────────────────────────────────────────────────────

proof fn found_is_first(s: Seq<char>, p: Seq<char>, from: nat)
    ensures
        match find_from(s, p, from) {
            Some(k) => from <= k && stands_at(s, p, k as int) && forall|i: int|
                from <= i < k ==> !#[trigger] stands_at(s, p, i),
            None => forall|i: int| from <= i ==> !#[trigger] stands_at(s, p, i),
        },
    decreases s.len() - from,
{
    if from + p.len() <= s.len() && !stands_at(s, p, from as int) && from < s.len() {
        found_is_first(s, p, from + 1);
    }
}

/// Whether a text holds another.
pub open spec fn has_part(s: Seq<char>, p: Seq<char>) -> bool {
    exists|i: int| #[trigger] stands_at(s, p, i)
}

/// `position` is the first place at which a part stands, counted from one, and
/// zero where it stands nowhere.
pub proof fn position_is_the_first(s: Seq<char>, p: Seq<char>)
    requires
        s.len() < i64::MAX,
    ensures
        ({
            let r = string_result(StrFunc::Position, seq![SqlValueV::Text(s), SqlValueV::Text(p)]);
            &&& r is Ok && r->Ok_0 is Int
            &&& r->Ok_0->Int_0 == 0 <==> !has_part(s, p)
            &&& has_part(s, p) ==> r->Ok_0->Int_0 >= 1 && stands_at(s, p, r->Ok_0->Int_0 - 1)
            &&& forall|i: int| #[trigger]
                stands_at(s, p, i) ==> r->Ok_0->Int_0 - 1 <= i
        }),
{
    found_is_first(s, p, 0);
    if find_from(s, p, 0) is None {
        assert forall|i: int| !#[trigger] stands_at(s, p, i) by {}
    }
}

/// `starts_with` is whether there is a rest.
pub proof fn starts_with_leaves_a_rest(s: Seq<char>, p: Seq<char>)
    ensures
        ({
            let r = string_result(
                StrFunc::StartsWith,
                seq![SqlValueV::Text(s), SqlValueV::Text(p)],
            );
            &&& r is Ok && r->Ok_0 is Bool
            &&& r->Ok_0->Bool_0 <==> exists|rest: Seq<char>| s == #[trigger] (p + rest)
        }),
{
    if stands_at(s, p, 0) {
        assert(s =~= p + s.skip(p.len() as int));
    }
    if exists|rest: Seq<char>| s == #[trigger] (p + rest) {
        assert(s.subrange(0, p.len() as int) =~= p);
    }
}

/// The texts of a list, with another between each two.
pub open spec fn joined(list: Seq<Seq<char>>, with: Seq<char>) -> Seq<char>
    decreases list.len(),
{
    if list.len() == 0 {
        Seq::empty()
    } else if list.len() == 1 {
        list[0]
    } else {
        list[0] + with + joined(list.drop_first(), with)
    }
}

proof fn replaced_is_joined(s: Seq<char>, p: Seq<char>, with: Seq<char>, start: nat)
    requires
        p.len() > 0,
        start <= s.len(),
    ensures
        replaced_from(s, p, with, start) == joined(fields_from(s, p, start), with),
        fields_from(s, p, start).len() > 0,
    decreases s.len() - start,
{
    found_is_first(s, p, start);
    let f = fields_from(s, p, start);
    match find_from(s, p, start) {
        Some(at) => {
            replaced_is_joined(s, p, with, at + p.len());
            let rest = fields_from(s, p, at + p.len());
            assert(f.drop_first() =~= rest);
            assert(f[0] == s.subrange(start as int, at as int));
        },
        None => {},
    }
}

proof fn joined_is_whole(s: Seq<char>, p: Seq<char>, start: nat)
    requires
        p.len() > 0,
        start <= s.len(),
    ensures
        joined(fields_from(s, p, start), p) == s.skip(start as int),
        fields_from(s, p, start).len() > 0,
    decreases s.len() - start,
{
    found_is_first(s, p, start);
    let f = fields_from(s, p, start);
    match find_from(s, p, start) {
        Some(at) => {
            joined_is_whole(s, p, at + p.len());
            let rest = fields_from(s, p, at + p.len());
            assert(f.drop_first() =~= rest);
            assert(f[0] == s.subrange(start as int, at as int));
            assert(s.subrange(at as int, (at + p.len()) as int) == p);
            assert(s.subrange(start as int, at as int) + s.subrange(at as int, (at + p.len()) as int)
                + s.skip((at + p.len()) as int) =~= s.skip(start as int));
        },
        None => {},
    }
}

proof fn fields_hold_no_mark(s: Seq<char>, p: Seq<char>, start: nat, k: int)
    requires
        p.len() > 0,
        start <= s.len(),
        0 <= k < fields_from(s, p, start).len(),
    ensures
        !has_part(fields_from(s, p, start)[k], p),
    decreases s.len() - start,
{
    found_is_first(s, p, start);
    let f = fields_from(s, p, start);
    match find_from(s, p, start) {
        Some(at) => {
            if k > 0 {
                fields_hold_no_mark(s, p, at + p.len(), k - 1);
                assert(f[k] == fields_from(s, p, at + p.len())[k - 1]);
            } else {
                let field = s.subrange(start as int, at as int);
                assert(f[0] == field);
                assert forall|i: int| !#[trigger] stands_at(field, p, i) by {
                    if stands_at(field, p, i) {
                        assert(field.subrange(i, i + p.len()) =~= s.subrange(
                            start + i,
                            start + i + p.len(),
                        ));
                        assert(stands_at(s, p, start + i));
                    }
                }
            }
        },
        None => {
            let field = s.skip(start as int);
            assert(f[0] == field);
            assert forall|i: int| !#[trigger] stands_at(field, p, i) by {
                if stands_at(field, p, i) {
                    assert(field.subrange(i, i + p.len()) =~= s.subrange(
                        start + i,
                        start + i + p.len(),
                    ));
                    assert(stands_at(s, p, start + i));
                }
            }
        },
    }
}

/// A text is its fields with the mark between them, and no field holds the mark.
/// `replace` puts another text between the fields; `split_part` gives one field,
/// counted from one, or from the end by a negative number.
pub proof fn fields_make_up_the_text(s: Seq<char>, mark: Seq<char>, with: Seq<char>, n: i64)
    requires
        mark.len() > 0,
        n != 0,
    ensures
        ({
            let f = fields_of(s, mark);
            let part = string_result(
                StrFunc::SplitPart,
                seq![SqlValueV::Text(s), SqlValueV::Text(mark), SqlValueV::Int(n)],
            );
            &&& joined(f, mark) == s
            &&& forall|k: int| 0 <= k < f.len() ==> !has_part(#[trigger] f[k], mark)
            &&& is_text(
                string_result(
                    StrFunc::Replace,
                    seq![SqlValueV::Text(s), SqlValueV::Text(mark), SqlValueV::Text(with)],
                ),
                joined(f, with),
            )
            &&& 1 <= n <= f.len() ==> is_text(part, f[n - 1])
            &&& 1 <= -n <= f.len() ==> is_text(part, f[f.len() + n])
            &&& n > f.len() || -n > f.len() ==> is_text(part, ""@)
        }),
{
    let f = fields_of(s, mark);
    joined_is_whole(s, mark, 0);
    assert(s.skip(0) =~= s);
    assert forall|k: int| 0 <= k < f.len() implies !has_part(#[trigger] f[k], mark) by {
        fields_hold_no_mark(s, mark, 0, k);
    }
    replaced_is_joined(s, mark, with, 0);
}

// ── names ────────────────────────────────────────────────────────────────

/// Whether a function is written with a plain list of arguments.
pub open spec fn takes_a_list(f: StrFunc) -> bool {
    f != StrFunc::Substring && f != StrFunc::Trim && f != StrFunc::Position
}

proof fn capitals(f: StrFunc, upper: Seq<char>)
    requires
        upper == match f {
            StrFunc::Lower => "LOWER"@,
            StrFunc::Upper => "UPPER"@,
            StrFunc::Length => "LENGTH"@,
            StrFunc::Concat => "CONCAT"@,
            StrFunc::Left => "LEFT"@,
            StrFunc::Right => "RIGHT"@,
            StrFunc::SplitPart => "SPLIT_PART"@,
            StrFunc::Replace => "REPLACE"@,
            _ => "STARTS_WITH"@,
        },
        takes_a_list(f),
    ensures
        in_capitals(upper, str_func_text(f)),
        string_named(upper) == Some(f),
{
    reveal_strlit("lower");
    reveal_strlit("upper");
    reveal_strlit("length");
    reveal_strlit("concat");
    reveal_strlit("left");
    reveal_strlit("right");
    reveal_strlit("split_part");
    reveal_strlit("replace");
    reveal_strlit("starts_with");
    reveal_strlit("LOWER");
    reveal_strlit("UPPER");
    reveal_strlit("LENGTH");
    reveal_strlit("CHAR_LENGTH");
    reveal_strlit("CONCAT");
    reveal_strlit("LEFT");
    reveal_strlit("RIGHT");
    reveal_strlit("SPLIT_PART");
    reveal_strlit("REPLACE");
    reveal_strlit("STARTS_WITH");
    assert("UPPER"@[0] == 'U' && "LOWER"@[0] == 'L' && "RIGHT"@[0] == 'R');
    assert("LENGTH"@[0] == 'L' && "CONCAT"@[0] == 'C');
    assert("CHAR_LENGTH"@[0] == 'C' && "STARTS_WITH"@[0] == 'S');
    assert("LOWER"@.len() == 5 && "UPPER"@.len() == 5 && "RIGHT"@.len() == 5);
    assert("LENGTH"@.len() == 6 && "CONCAT"@.len() == 6 && "LEFT"@.len() == 4);
    assert("SPLIT_PART"@.len() == 10 && "REPLACE"@.len() == 7);
    assert("STARTS_WITH"@.len() == 11 && "CHAR_LENGTH"@.len() == 11);
}

/// A word is read as a string function exactly where it is the name of that
/// function, in capitals; `char_length` is `length`.
pub proof fn string_functions_are_called_so(w: Seq<char>, f: StrFunc)
    ensures
        string_named(w) == Some(f) <==> takes_a_list(f) && (in_capitals(w, str_func_text(f)) || (f
            == StrFunc::Length && w == "CHAR_LENGTH"@)),
{
    capitals(StrFunc::Lower, "LOWER"@);
    capitals(StrFunc::Upper, "UPPER"@);
    capitals(StrFunc::Length, "LENGTH"@);
    capitals(StrFunc::Concat, "CONCAT"@);
    capitals(StrFunc::Left, "LEFT"@);
    capitals(StrFunc::Right, "RIGHT"@);
    capitals(StrFunc::SplitPart, "SPLIT_PART"@);
    capitals(StrFunc::Replace, "REPLACE"@);
    capitals(StrFunc::StartsWith, "STARTS_WITH"@);
    let upper = match f {
        StrFunc::Lower => "LOWER"@,
        StrFunc::Upper => "UPPER"@,
        StrFunc::Length => "LENGTH"@,
        StrFunc::Concat => "CONCAT"@,
        StrFunc::Left => "LEFT"@,
        StrFunc::Right => "RIGHT"@,
        StrFunc::SplitPart => "SPLIT_PART"@,
        StrFunc::Replace => "REPLACE"@,
        _ => "STARTS_WITH"@,
    };
    if takes_a_list(f) && in_capitals(w, str_func_text(f)) {
        assert forall|i: int| 0 <= i < w.len() implies w[i] == upper[i] by {
            assert(w[i] as int == upper[i] as int);
        }
        assert(w =~= upper);
    }
    reveal_strlit("LOWER");
    reveal_strlit("UPPER");
    reveal_strlit("LENGTH");
    reveal_strlit("CHAR_LENGTH");
    reveal_strlit("CONCAT");
    reveal_strlit("LEFT");
    reveal_strlit("RIGHT");
    reveal_strlit("SPLIT_PART");
    reveal_strlit("REPLACE");
    reveal_strlit("STARTS_WITH");
    assert("CHAR_LENGTH"@[0] != "STARTS_WITH"@[0]);
}

} // verus!
