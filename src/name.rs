use vstd::prelude::*;
use vstd::string::StrSliceExecFns;
use vstd::string::StringExecFns;

verus! {

/// The parts that take part in a name: those that are not empty, in order.
pub open spec fn present(parts: Seq<Seq<char>>) -> Seq<Seq<char>> {
    parts.filter(|p: Seq<char>| p.len() > 0)
}

/// `parts` with `delimiter` between each two neighbours.
pub open spec fn join_with(parts: Seq<Seq<char>>, delimiter: Seq<char>) -> Seq<char>
    decreases parts.len(),
{
    if parts.len() == 0 {
        Seq::empty()
    } else if parts.len() == 1 {
        parts[0]
    } else {
        join_with(parts.drop_last(), delimiter) + delimiter + parts.last()
    }
}

/// The non-empty parts joined by `delimiter`; an empty part adds no delimiter.
pub open spec fn join_present(parts: Seq<Seq<char>>, delimiter: Seq<char>) -> Seq<char> {
    join_with(present(parts), delimiter)
}

/// The token whose k-th character is the `picks[k]`-th character of `alphabet`.
pub open spec fn token_of(alphabet: Seq<char>, picks: Seq<usize>) -> Seq<char> {
    picks.map_values(|i: usize| alphabet[i as int])
}

/// Every pick is a position of `alphabet`.
pub open spec fn picks_in(alphabet: Seq<char>, picks: Seq<usize>) -> bool {
    forall|k: int| 0 <= k < picks.len() ==> #[trigger] picks[k] < alphabet.len()
}

/// The views of a sequence of string slices.
pub open spec fn views(parts: Seq<&str>) -> Seq<Seq<char>> {
    parts.map_values(|p: &str| p@)
}

pub(crate) proof fn lemma_present_push(parts: Seq<Seq<char>>, p: Seq<char>)
    ensures
        present(parts.push(p)) == (if p.len() > 0 {
            present(parts).push(p)
        } else {
            present(parts)
        }),
{
    reveal(Seq::filter);
    assert(parts.push(p).drop_last() =~= parts);
}

proof fn lemma_present_non_empty(parts: Seq<Seq<char>>)
    ensures
        forall|k: int| 0 <= k < present(parts).len() ==> #[trigger] present(parts)[k].len() > 0,
{
    broadcast use vstd::seq_lib::group_filter_ensures;

    assert forall|k: int| 0 <= k < present(parts).len() implies #[trigger] present(parts)[k].len()
        > 0 by {
        parts.lemma_filter_pred(|p: Seq<char>| p.len() > 0, k);
    }
}

/// Joins the non-empty entries of `parts` with `delimiter`.
pub fn join_non_empty(parts: &Vec<&str>, delimiter: &str) -> (r: String)
    ensures
        r@ == join_present(views(parts@), delimiter@),
{
    let mut r = String::new();
    let mut any: bool = false;
    let ghost all = views(parts@);
    for i in 0..parts.len()
        invariant
            all == views(parts@),
            r@ == join_present(all.take(i as int), delimiter@),
            any == (present(all.take(i as int)).len() > 0),
    {
        let p: &str = parts[i];
        proof {
            assert(all.take(i + 1) =~= all.take(i as int).push(p@));
            lemma_present_push(all.take(i as int), p@);
            lemma_present_non_empty(all.take(i as int));
        }
        if !p.is_empty() {
            let ghost before = present(all.take(i as int));
            if any {
                r.append(delimiter);
            }
            r.append(p);
            any = true;
            proof {
                let after = before.push(p@);
                assert(after.drop_last() =~= before);
                if !(before.len() > 0) {
                    assert(r@ =~= p@);
                }
            }
        }
    }
    proof {
        assert(all.take(parts.len() as int) =~= all);
    }
    r
}

/// The token whose k-th character is the `picks[k]`-th character of `alphabet`,
/// counted in characters, not bytes.
pub fn token_from_picks(alphabet: &str, picks: &Vec<usize>) -> (r: String)
    requires
        picks_in(alphabet@, picks@),
    ensures
        r@ == token_of(alphabet@, picks@),
{
    let n: usize = alphabet.unicode_len();
    let mut r = String::new();
    for k in 0..picks.len()
        invariant
            n == alphabet@.len(),
            picks_in(alphabet@, picks@),
            r@ == token_of(alphabet@, picks@.take(k as int)),
    {
        let i: usize = picks[k];
        assert(i < alphabet@.len());
        let c = alphabet.substring_char(i, i + 1);
        r.append(c);
        assert(token_of(alphabet@, picks@.take(k + 1)) =~= token_of(
            alphabet@,
            picks@.take(k as int),
        ).push(alphabet@[i as int]));
        assert(r@ =~= token_of(alphabet@, picks@.take(k + 1)));
    }
    assert(picks@.take(picks.len() as int) =~= picks@);
    r
}

} // verus!
