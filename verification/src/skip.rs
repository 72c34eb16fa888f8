//! The skip policy of a playlist entry and its text form on the wire.

use crate::text::{
    chars_of, decimal, lemma_decimal_digits, lemma_parse_decimal_of_decimal, parse_decimal,
    parse_decimal_in, push_decimal, same_text, stands_at,
};
use vstd::prelude::*;

verus! {

/// What moves a playlist on from the entry that is playing.
#[derive(Debug, Clone, Copy, PartialEq, Eq, Structural)]
pub enum Skip {
    /// Go on when the video has reached its end.
    VideoEnd,
    /// Wait for the operator.
    Input,
    /// Go on after this many seconds. The policy can be held and sent;
    /// nothing acts on it yet.
    Time(u32),
}

/// The canonical text of a policy: `VideoEnd`, `Input`, or `Time(n)` with
/// `n` in decimal.
pub open spec fn skip_text(p: Skip) -> Seq<char> {
    match p {
        Skip::VideoEnd => "VideoEnd"@,
        Skip::Input => "Input"@,
        Skip::Time(n) => "Time("@ + decimal(n as nat) + ")"@,
    }
}

/// The policy that a text names, if it names one. Between `Time(` and `)`
/// stands whatever `parse_decimal` accepts.
pub open spec fn parse_skip(s: Seq<char>) -> Option<Skip> {
    if s == "VideoEnd"@ {
        Some(Skip::VideoEnd)
    } else if s == "Input"@ {
        Some(Skip::Input)
    } else if s.len() >= 6 && s.subrange(0, 5) == "Time("@ && s.last() == ')' {
        match parse_decimal(s.subrange(5, s.len() - 1)) {
            Some(n) => Some(Skip::Time(n)),
            None => None,
        }
    } else {
        None
    }
}

/// Every policy is read back from its own text.
pub proof fn lemma_skip_roundtrip(p: Skip)
    ensures
        parse_skip(skip_text(p)) == Some(p),
{
    reveal_strlit("VideoEnd");
    reveal_strlit("Input");
    reveal_strlit("Time(");
    reveal_strlit(")");
    match p {
        Skip::VideoEnd => {},
        Skip::Input => {
            assert("Input"@.len() != "VideoEnd"@.len());
        },
        Skip::Time(n) => {
            let s = skip_text(p);
            lemma_parse_decimal_of_decimal(n);
            lemma_decimal_digits(n as nat);
            assert(s[0] == 'T');
            assert("VideoEnd"@[0] == 'V');
            assert("Input"@[0] == 'I');
            assert(s.subrange(0, 5) =~= "Time("@);
            assert(s.subrange(5, s.len() - 1) =~= decimal(n as nat));
        },
    }
}

impl Skip {
    /// The canonical text of the policy.
    pub fn to_string(&self) -> (s: String)
        ensures
            s@ == skip_text(*self),
    {
        match self {
            Skip::VideoEnd => String::from_str("VideoEnd"),
            Skip::Input => String::from_str("Input"),
            Skip::Time(secs) => {
                let mut s = String::from_str("Time(");
                push_decimal(&mut s, *secs);
                s.append(")");
                s
            },
        }
    }

    /// Reads a policy from its text; `None` where the text names none.
    pub fn from_string(s: &str) -> (p: Option<Skip>)
        ensures
            p == parse_skip(s@),
    {
        let chars = chars_of(s);
        let n = chars.len();
        proof {
            reveal_strlit("Time(");
        }
        if same_text(&chars, "VideoEnd") {
            Some(Skip::VideoEnd)
        } else if same_text(&chars, "Input") {
            Some(Skip::Input)
        } else if n >= 6 && stands_at(&chars, 0, "Time(") && chars[n - 1] == ')' {
            match parse_decimal_in(&chars, 5, n - 1) {
                Some(secs) => Some(Skip::Time(secs)),
                None => None,
            }
        } else {
            None
        }
    }
}

} // verus!
