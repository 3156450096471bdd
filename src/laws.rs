use vstd::prelude::*;

use crate::name::{join_present, join_with, lemma_present_push, present, token_of};
use crate::Haikunator;

verus! {

/// Every word of the list has at least one character.
pub open spec fn words_non_empty(words: Seq<&str>) -> bool {
    forall|i: int| 0 <= i < words.len() ==> (#[trigger] words[i])@.len() > 0
}

/// Every character of `s` is a character of `alphabet`.
pub open spec fn drawn_from(s: Seq<char>, alphabet: Seq<char>) -> bool {
    forall|k: int| 0 <= k < s.len() ==> alphabet.contains(#[trigger] s[k])
}

proof fn lemma_present_three(a: Seq<char>, n: Seq<char>, t: Seq<char>)
    ensures
        present(seq![a, n, t]) == {
            let s0 = Seq::<Seq<char>>::empty();
            let s1 = if a.len() > 0 { s0.push(a) } else { s0 };
            let s2 = if n.len() > 0 { s1.push(n) } else { s1 };
            if t.len() > 0 { s2.push(t) } else { s2 }
        },
{
    let e = Seq::<Seq<char>>::empty();
    reveal(Seq::filter);
    assert(e.filter(|p: Seq<char>| p.len() > 0) == e);
    lemma_present_push(e, a);
    lemma_present_push(e.push(a), n);
    lemma_present_push(e.push(a).push(n), t);
    assert(seq![a, n, t] =~= e.push(a).push(n).push(t));
}

/// With a non-empty adjective, noun and token, the name is the three of them
/// with the delimiter between each two.
proof fn lemma_three_parts(a: Seq<char>, n: Seq<char>, t: Seq<char>, d: Seq<char>)
    requires
        a.len() > 0,
        n.len() > 0,
        t.len() > 0,
    ensures
        join_present(seq![a, n, t], d) == a + d + n + d + t,
{
    lemma_present_three(a, n, t);
    let p = seq![a, n, t];
    assert(present(p) =~= p);
    assert(p.drop_last() =~= seq![a, n]);
    assert(seq![a, n].drop_last() =~= seq![a]);
    assert(join_with(seq![a], d) == a);
    assert(join_with(seq![a, n], d) == a + d + n);
    assert(join_with(p, d) == a + d + n + d + t);
}

/// What the picks of a fitting draw give: a word of each list and a token
/// of the alphabet with one character for each pick.
proof fn lemma_fitting_picks(h: Haikunator, ap: usize, np: usize, tp: Seq<usize>)
    requires
        h.picks_fit(ap, np, tp),
    ensures
        h.adjectives@.len() > 0 ==> h.adjectives@.contains(h.adjectives@[ap as int]),
        h.nouns@.len() > 0 ==> h.nouns@.contains(h.nouns@[np as int]),
        token_of(h.alphabet(), tp).len() == h.token_count(),
        drawn_from(token_of(h.alphabet(), tp), h.alphabet()),
{
    let t = token_of(h.alphabet(), tp);
    assert forall|k: int| 0 <= k < t.len() implies h.alphabet().contains(#[trigger] t[k]) by {
        assert(tp[k] < h.alphabet().len());
        assert(t[k] == h.alphabet()[tp[k] as int]);
    }
}

/// Where both lists hold non-empty words and the token has characters to be
/// drawn from, every name is a listed adjective, the delimiter, a listed noun,
/// the delimiter, and a token of exactly `token_length` characters of the
/// alphabet, counted as characters, not bytes.
pub proof fn law_full_name(h: Haikunator, name: Seq<char>)
    requires
        h.can_give(name),
        h.adjectives@.len() > 0,
        h.nouns@.len() > 0,
        words_non_empty(h.adjectives@),
        words_non_empty(h.nouns@),
        h.alphabet().len() > 0,
        h.token_length > 0,
    ensures
        exists|a: &str, n: &str, t: Seq<char>|
            {
                &&& h.adjectives@.contains(a)
                &&& h.nouns@.contains(n)
                &&& t.len() == h.token_length
                &&& drawn_from(t, h.alphabet())
                &&& name == a@ + h.delimiter@ + n@ + h.delimiter@ + t
            },
{
    let (ap, np, tp) = choose|ap: usize, np: usize, tp: Seq<usize>|
        #[trigger] h.picks_fit(ap, np, tp) && name == h.name_for(ap, np, tp);
    lemma_fitting_picks(h, ap, np, tp);
    let a = h.adjectives@[ap as int];
    let n = h.nouns@[np as int];
    let t = token_of(h.alphabet(), tp);
    lemma_three_parts(a@, n@, t, h.delimiter@);
}

/// The default settings give an adjective of the default list, `-`, a noun
/// of the default list, `-`, and four decimal digits.
pub proof fn law_default_name(h: Haikunator, name: Seq<char>)
    requires
        h.has_default_settings(),
        h.can_give(name),
    ensures
        exists|a: &str, n: &str, t: Seq<char>|
            {
                &&& crate::DEFAULT_ADJECTIVES@.contains(a)
                &&& crate::DEFAULT_NOUNS@.contains(n)
                &&& t.len() == 4
                &&& drawn_from(t, "0123456789"@)
                &&& name == a@ + "-"@ + n@ + "-"@ + t
            },
{
    crate::words::lemma_default_words_non_empty();
    reveal_strlit("0123456789");
    law_full_name(h, name);
}

/// With `token_hex` set, every token character is a hexadecimal digit,
/// whatever `token_chars` holds.
pub proof fn law_hex_token(h: Haikunator, name: Seq<char>)
    requires
        h.can_give(name),
        h.token_hex,
        h.adjectives@.len() > 0,
        h.nouns@.len() > 0,
        words_non_empty(h.adjectives@),
        words_non_empty(h.nouns@),
        h.token_length > 0,
    ensures
        exists|a: &str, n: &str, t: Seq<char>|
            {
                &&& h.adjectives@.contains(a)
                &&& h.nouns@.contains(n)
                &&& t.len() == h.token_length
                &&& drawn_from(t, "0123456789abcdef"@)
                &&& name == a@ + h.delimiter@ + n@ + h.delimiter@ + t
            },
{
    reveal_strlit("0123456789abcdef");
    law_full_name(h, name);
}

/// Without `token_hex`, the token has exactly `token_length` characters, each
/// one of `token_chars`, where that alphabet is not empty.
pub proof fn law_custom_token(h: Haikunator, name: Seq<char>)
    requires
        h.can_give(name),
        !h.token_hex,
        h.token_chars@.len() > 0,
        h.adjectives@.len() > 0,
        h.nouns@.len() > 0,
        words_non_empty(h.adjectives@),
        words_non_empty(h.nouns@),
        h.token_length > 0,
    ensures
        exists|a: &str, n: &str, t: Seq<char>|
            {
                &&& h.adjectives@.contains(a)
                &&& h.nouns@.contains(n)
                &&& t.len() == h.token_length
                &&& drawn_from(t, h.token_chars@)
                &&& name == a@ + h.delimiter@ + n@ + h.delimiter@ + t
            },
{
    law_full_name(h, name);
}

/// A token length of zero leaves the token out, with no delimiter after the
/// noun: the name is an adjective, the delimiter and a noun.
pub proof fn law_no_token(h: Haikunator, name: Seq<char>)
    requires
        h.can_give(name),
        h.token_length == 0,
        h.adjectives@.len() > 0,
        h.nouns@.len() > 0,
        words_non_empty(h.adjectives@),
        words_non_empty(h.nouns@),
    ensures
        exists|a: &str, n: &str|
            {
                &&& h.adjectives@.contains(a)
                &&& h.nouns@.contains(n)
                &&& name == a@ + h.delimiter@ + n@
            },
{
    let (ap, np, tp) = choose|ap: usize, np: usize, tp: Seq<usize>|
        #[trigger] h.picks_fit(ap, np, tp) && name == h.name_for(ap, np, tp);
    lemma_fitting_picks(h, ap, np, tp);
    let a = h.adjectives@[ap as int];
    let n = h.nouns@[np as int];
    let t = token_of(h.alphabet(), tp);
    lemma_present_three(a@, n@, t);
    let p = seq![a@, n@];
    assert(present(seq![a@, n@, t]) =~= p);
    assert(p.drop_last() =~= seq![a@]);
    assert(join_with(seq![a@], h.delimiter@) == a@);
}

/// With no adjectives, no nouns and a token length of zero, the name is
/// empty.
pub proof fn law_empty_name(h: Haikunator, name: Seq<char>)
    requires
        h.can_give(name),
        h.adjectives@.len() == 0,
        h.nouns@.len() == 0,
        h.token_length == 0,
    ensures
        name.len() == 0,
{
    let (ap, np, tp) = choose|ap: usize, np: usize, tp: Seq<usize>|
        #[trigger] h.picks_fit(ap, np, tp) && name == h.name_for(ap, np, tp);
    lemma_fitting_picks(h, ap, np, tp);
    let t = token_of(h.alphabet(), tp);
    lemma_present_three(Seq::empty(), Seq::empty(), t);
}

} // verus!
