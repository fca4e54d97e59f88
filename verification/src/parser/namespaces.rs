//! The texts that a statement names as UUIDs. The engine reads them, so it is
//! asked of each before the statement is parsed.

use vstd::prelude::*;
use crate::parser::cursor::{tok, want, word};
use crate::parser::define::{default_generator, refused_from, uuid5_arguments, uuid_text};
use crate::text::{ascii_upper, same, texts};
use crate::token::{Sym, Tok, TokV, Token, TokenV};

verus! {

/// Whether the word of `uuid5`, its parenthesis and a text end at a place.
pub open spec fn ends_namespace(t: Seq<TokenV>, k: int) -> bool {
    &&& 2 <= k < t.len()
    &&& word(t, k - 2) == Some("UUID5"@) || word(t, k - 2) == Some("UUID_GENERATE_V5"@)
    &&& tok(t, k - 1) == TokV::Sym(Sym::LParen)
    &&& tok(t, k) is Str
}

/// The namespaces that stand among the first `n` tokens.
pub open spec fn namespaces_to(t: Seq<TokenV>, n: nat) -> Seq<Seq<char>>
    decreases n,
{
    if n == 0 {
        Seq::empty()
    } else if ends_namespace(t, n - 1) {
        namespaces_to(t, (n - 1) as nat).push(tok(t, n - 1)->Str_0)
    } else {
        namespaces_to(t, (n - 1) as nat)
    }
}

/// Whether the word at a place is that of `uuid5`.
fn names_uuid5(tokens: &Vec<Token>, k: usize) -> (r: bool)
    requires
        k < tokens@.len(),
    ensures
        r == (word(tokens.deep_view(), k as int) == Some("UUID5"@) || word(
            tokens.deep_view(),
            k as int,
        ) == Some("UUID_GENERATE_V5"@)),
{
    assert(tokens.deep_view()[k as int] == tokens@[k as int].deep_view());
    match &tokens[k].tok {
        Tok::Word(w) => {
            let u = ascii_upper(w.as_str());
            same(u.as_str(), "UUID5") || same(
                u.as_str(),
                "UUID_GENERATE_V5",
            )
        },
        _ => false,
    }
}

/// The texts that stand where `uuid5` names its namespace, in their order.
pub fn namespaces(tokens: &Vec<Token>) -> (r: Vec<String>)
    ensures
        texts(r@) == namespaces_to(tokens.deep_view(), tokens@.len()),
{
    let ghost t = tokens.deep_view();
    let mut out: Vec<String> = Vec::new();
    let mut k: usize = 0;
    assert(texts(out@) =~= Seq::<Seq<char>>::empty());
    while k < tokens.len()
        invariant
            k <= tokens@.len(),
            t == tokens.deep_view(),
            texts(out@) == namespaces_to(t, k as nat),
        decreases tokens@.len() - k,
    {
        assert(t[k as int] == tokens@[k as int].deep_view());
        if k >= 2 {
            assert(t[k as int - 1] == tokens@[k as int - 1].deep_view());
            let opens = match &tokens[k - 1].tok {
                Tok::Sym(x) => *x == Sym::LParen,
                _ => false,
            };
            if opens && names_uuid5(tokens, k - 2) {
                if let Tok::Str(text) = &tokens[k].tok {
                    let ghost before = out@;
                    let copy = text.clone();
                    out.push(copy);
                    assert(texts(out@) =~= texts(before).push(copy@));
                }
            }
        }
        k = k + 1;
    }
    out
}

proof fn namespace_is_listed(t: Seq<TokenV>, k: int, n: nat)
    requires
        ends_namespace(t, k),
        k < n,
    ensures
        namespaces_to(t, n).contains(tok(t, k)->Str_0),
    decreases n,
{
    let list = namespaces_to(t, n);
    let front = namespaces_to(t, (n - 1) as nat);
    if k == n - 1 {
        assert(list[list.len() - 1] == tok(t, k)->Str_0);
    } else {
        namespace_is_listed(t, k, (n - 1) as nat);
        let i = choose|i: int| 0 <= i < front.len() && front[i] == tok(t, k)->Str_0;
        assert(list[i] == front[i]);
    }
}

/// Of a default, the engine's say counts only for a text that `namespaces`
/// lists: where two of its answers agree on these, the default is read alike.
pub proof fn only_namespaces_are_asked_for(
    t: Seq<TokenV>,
    s: int,
    u: Seq<(Seq<char>, Seq<char>)>,
    v: Seq<(Seq<char>, Seq<char>)>,
)
    requires
        0 <= s < t.len(),
        forall|i: int|
            0 <= i < namespaces_to(t, t.len()).len() ==> refused_from(
                u,
                #[trigger] namespaces_to(t, t.len())[i],
                0,
            ) == refused_from(v, namespaces_to(t, t.len())[i], 0),
    ensures
        default_generator(t, s, u) == default_generator(t, s, v),
{
    reveal(default_generator);
    reveal(uuid5_arguments);
    reveal(uuid_text);
    reveal(want);
    if ends_namespace(t, s + 2) {
        namespace_is_listed(t, s + 2, t.len());
    }
}

} // verus!
