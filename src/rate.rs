use vstd::prelude::*;
use crate::text::same_text;

verus! {

/// A speech rate, from slowest to fastest.
#[derive(Clone, Copy, Debug, PartialEq, Eq, Structural, PartialOrd, Ord)]
pub enum Rate {
    Xslow,
    Slow,
    Medium,
    Fast,
    Xfast,
}

impl Rate {
    /// The markup token that names this rate in a prosody element.
    pub open spec fn spec_token(self) -> Seq<char> {
        match self {
            Rate::Xslow => seq!['x', '-', 's', 'l', 'o', 'w'],
            Rate::Slow => seq!['s', 'l', 'o', 'w'],
            Rate::Medium => seq!['m', 'e', 'd', 'i', 'u', 'm'],
            Rate::Fast => seq!['f', 'a', 's', 't'],
            Rate::Xfast => seq!['x', '-', 'f', 'a', 's', 't'],
        }
    }

    /// The rate used when none is given.
    pub fn default_rate() -> (r: Rate)
        ensures
            r == Rate::Medium,
    {
        Rate::Medium
    }

    /// The markup token of this rate: `x-slow`, `slow`, `medium`, `fast` or `x-fast`.
    pub fn token(&self) -> (r: &'static str)
        ensures
            r@ == self.spec_token(),
    {
        match self {
            Rate::Xslow => {
                proof {
                    reveal_strlit("x-slow");
                }
                "x-slow"
            },
            Rate::Slow => {
                proof {
                    reveal_strlit("slow");
                }
                "slow"
            },
            Rate::Medium => {
                proof {
                    reveal_strlit("medium");
                }
                "medium"
            },
            Rate::Fast => {
                proof {
                    reveal_strlit("fast");
                }
                "fast"
            },
            Rate::Xfast => {
                proof {
                    reveal_strlit("x-fast");
                }
                "x-fast"
            },
        }
    }

    /// The rate whose token is `name`, if there is one.
    pub fn from_token(name: &str) -> (r: Option<Rate>)
        ensures
            r == rate_named(name@),
    {
        if same_text(Rate::Xslow.token(), name) {
            Some(Rate::Xslow)
        } else if same_text(Rate::Slow.token(), name) {
            Some(Rate::Slow)
        } else if same_text(Rate::Medium.token(), name) {
            Some(Rate::Medium)
        } else if same_text(Rate::Fast.token(), name) {
            Some(Rate::Fast)
        } else if same_text(Rate::Xfast.token(), name) {
            Some(Rate::Xfast)
        } else {
            None
        }
    }
}

/// The rate whose token is `name`, if any.
pub open spec fn rate_named(name: Seq<char>) -> Option<Rate> {
    if name == Rate::Xslow.spec_token() {
        Some(Rate::Xslow)
    } else if name == Rate::Slow.spec_token() {
        Some(Rate::Slow)
    } else if name == Rate::Medium.spec_token() {
        Some(Rate::Medium)
    } else if name == Rate::Fast.spec_token() {
        Some(Rate::Fast)
    } else if name == Rate::Xfast.spec_token() {
        Some(Rate::Xfast)
    } else {
        None
    }
}

/// Reading a rate's token back gives that rate.
pub proof fn lemma_token_round_trip(rate: Rate)
    ensures
        rate_named(rate.spec_token()) == Some(rate),
{
    lemma_tokens_distinct(rate, Rate::Xslow);
    lemma_tokens_distinct(rate, Rate::Slow);
    lemma_tokens_distinct(rate, Rate::Medium);
    lemma_tokens_distinct(rate, Rate::Fast);
}

/// Distinct rates have distinct tokens, so a token names exactly one rate.
pub proof fn lemma_tokens_distinct(a: Rate, b: Rate)
    ensures
        a.spec_token() == b.spec_token() <==> a == b,
{
    if a != b && a.spec_token() == b.spec_token() {
        let (sa, sb) = (a.spec_token(), b.spec_token());
        assert(sa.len() == sb.len());
        assert(sa[0] == sb[0]);
        assert(sa[2] == sb[2]);
    }
}

} // verus!
