//! Heroku-like memorable names: an adjective, a noun and a random token,
//! joined by a delimiter (`brisk-harbor-4081`).
use vstd::prelude::*;

pub mod laws;
pub mod name;
mod random;
pub mod words;

pub use words::{DEFAULT_ADJECTIVES, DEFAULT_NOUNS};

use name::{join_non_empty, join_present, picks_in, token_from_picks, token_of};
use random::pick_below;

verus! {

/// The alphabet of hexadecimal tokens.
pub const HEX_CHARS: &'static str = "0123456789abcdef";

/// Holds settings and data that will be used when `haikunate` is called.
///
/// If `token_hex` is true, the value of `token_chars` is ignored.
#[derive(Debug)]
pub struct Haikunator<'a> {
    pub adjectives: &'a [&'a str],
    pub nouns: &'a [&'a str],
    pub delimiter: &'a str,
    pub token_length: usize,
    pub token_hex: bool,
    pub token_chars: &'a str,
}

impl<'a> Default for Haikunator<'a> {
    /// The default word lists, `-` as delimiter and four decimal digits.
    fn default() -> (r: Self)
        ensures
            r.has_default_settings(),
    {
        Haikunator {
            adjectives: DEFAULT_ADJECTIVES,
            nouns: DEFAULT_NOUNS,
            delimiter: "-",
            token_length: 4,
            token_hex: false,
            token_chars: "0123456789",
        }
    }
}

impl<'a> Haikunator<'a> {
    /// The settings that `default` gives.
    pub open spec fn has_default_settings(&self) -> bool {
        &&& self.adjectives@ == DEFAULT_ADJECTIVES@
        &&& self.nouns@ == DEFAULT_NOUNS@
        &&& self.delimiter@ == "-"@
        &&& self.token_length == 4
        &&& !self.token_hex
        &&& self.token_chars@ == "0123456789"@
    }

    /// The characters the token is drawn from.
    pub open spec fn alphabet(&self) -> Seq<char> {
        if self.token_hex {
            HEX_CHARS@
        } else {
            self.token_chars@
        }
    }

    /// How many characters the token has: none where the alphabet is empty.
    pub open spec fn token_count(&self) -> nat {
        if self.alphabet().len() == 0 {
            0
        } else {
            self.token_length as nat
        }
    }

    /// The adjective part for a pick: empty where there is no adjective to pick.
    pub open spec fn adjective_part(&self, pick: usize) -> Seq<char> {
        if self.adjectives@.len() == 0 {
            Seq::empty()
        } else {
            self.adjectives@[pick as int]@
        }
    }

    /// The noun part for a pick: empty where there is no noun to pick.
    pub open spec fn noun_part(&self, pick: usize) -> Seq<char> {
        if self.nouns@.len() == 0 {
            Seq::empty()
        } else {
            self.nouns@[pick as int]@
        }
    }

    /// The picks are positions of the adjectives, the nouns and the alphabet,
    /// with one alphabet position for each token character.
    pub open spec fn picks_fit(
        &self,
        adjective_pick: usize,
        noun_pick: usize,
        token_picks: Seq<usize>,
    ) -> bool {
        &&& self.adjectives@.len() > 0 ==> adjective_pick < self.adjectives@.len()
        &&& self.nouns@.len() > 0 ==> noun_pick < self.nouns@.len()
        &&& token_picks.len() == self.token_count()
        &&& picks_in(self.alphabet(), token_picks)
    }

    /// The name that the given picks make.
    pub open spec fn name_for(
        &self,
        adjective_pick: usize,
        noun_pick: usize,
        token_picks: Seq<usize>,
    ) -> Seq<char> {
        join_present(
            seq![
                self.adjective_part(adjective_pick),
                self.noun_part(noun_pick),
                token_of(self.alphabet(), token_picks),
            ],
            self.delimiter@,
        )
    }

    /// `name` is one of the names this configuration can give.
    pub open spec fn can_give(&self, name: Seq<char>) -> bool {
        exists|adjective_pick: usize, noun_pick: usize, token_picks: Seq<usize>|
            #[trigger] self.picks_fit(adjective_pick, noun_pick, token_picks) && name
                == self.name_for(adjective_pick, noun_pick, token_picks)
    }

    /// The alphabet the token is drawn from: the hexadecimal digits where
    /// `token_hex` is set, else `token_chars`.
    pub fn token_alphabet(&self) -> (r: &'a str)
        ensures
            r@ == self.alphabet(),
    {
        if self.token_hex {
            HEX_CHARS
        } else {
            self.token_chars
        }
    }

    /// The name that the given picks make: the picked adjective, the picked
    /// noun and the token, the non-empty ones joined by the delimiter.
    pub fn haikunate_with(
        &self,
        adjective_pick: usize,
        noun_pick: usize,
        token_picks: &Vec<usize>,
    ) -> (r: String)
        requires
            self.picks_fit(adjective_pick, noun_pick, token_picks@),
        ensures
            r@ == self.name_for(adjective_pick, noun_pick, token_picks@),
    {
        let adjective: &str = if self.adjectives.len() > 0 {
            self.adjectives[adjective_pick]
        } else {
            ""
        };
        let noun: &str = if self.nouns.len() > 0 {
            self.nouns[noun_pick]
        } else {
            ""
        };
        let token = token_from_picks(self.token_alphabet(), token_picks);
        let parts: Vec<&str> = vec![adjective, noun, token.as_str()];
        let r = join_non_empty(&parts, self.delimiter);
        proof {
            reveal_strlit("");
            assert(adjective@ =~= self.adjective_part(adjective_pick));
            assert(noun@ =~= self.noun_part(noun_pick));
            assert(parts@[2]@ == token_of(self.alphabet(), token_picks@));
            assert(name::views(parts@) =~= seq![
                self.adjective_part(adjective_pick),
                self.noun_part(noun_pick),
                token_of(self.alphabet(), token_picks@),
            ]);
        }
        r
    }

    /// Generates a random Heroku-like short name from an adjective, a noun and
    /// a token, joined by the delimiter. Each part is drawn uniformly; an
    /// empty list or alphabet, or a zero token length, leaves its part out.
    pub fn haikunate(&self) -> (r: String)
        ensures
            self.can_give(r@),
    {
        let mut rng = rand::thread_rng();
        let adjective_pick: usize = if self.adjectives.len() > 0 {
            pick_below(&mut rng, self.adjectives.len())
        } else {
            0
        };
        let noun_pick: usize = if self.nouns.len() > 0 {
            pick_below(&mut rng, self.nouns.len())
        } else {
            0
        };
        let tokens = self.token_alphabet();
        let count: usize = tokens.unicode_len();
        let mut token_picks: Vec<usize> = Vec::new();
        if count > 0 {
            for k in 0..self.token_length
                invariant
                    count == self.alphabet().len(),
                    count > 0,
                    token_picks@.len() == k,
                    picks_in(self.alphabet(), token_picks@),
            {
                let pick: usize = pick_below(&mut rng, count);
                token_picks.push(pick);
            }
        }
        assert(self.picks_fit(adjective_pick, noun_pick, token_picks@));
        self.haikunate_with(adjective_pick, noun_pick, &token_picks)
    }
}

} // verus!
