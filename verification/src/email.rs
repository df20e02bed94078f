//! Mail-delivery configuration and the plain-text reduction of a
//! message body. The transport itself — connecting, authenticating,
//! handing the message over — lives with the mail collaborator.

use vstd::prelude::*;
use crate::text::spec_find;
use crate::text::trimmed;
use crate::text::lemma_spec_find_bound;
use crate::text::str_to_chars;
use crate::text::chars_to_string;
use crate::text::sub_chars;
use crate::text::find_first;
use crate::text::push_all;
use crate::text::trim_chars;

verus! {

/// How to reach the mail relay and whom messages come from.
pub struct EmailConfig {
    pub smtp_host: String,
    pub smtp_port: u16,
    pub smtp_username: String,
    pub smtp_password: String,
    pub from_email: String,
    pub from_name: String,
}

/// `s` with every angle-bracketed segment removed: at each opening
/// bracket everything through the next closing bracket goes; an opening
/// bracket that no closing bracket follows stays, with all that follows
/// it.
pub open spec fn spec_stripped(s: Seq<char>) -> Seq<char>
    decreases s.len(),
    via spec_stripped_decreases
{
    if s.len() == 0 {
        s
    } else if s[0] == '<' {
        match spec_find(s, seq!['>']) {
            Some(k) => spec_stripped(s.skip(k + 1)),
            None => s,
        }
    } else {
        seq![s[0]] + spec_stripped(s.skip(1))
    }
}

#[via_fn]
proof fn spec_stripped_decreases(s: Seq<char>) {
    if s.len() > 0 && s[0] == '<' {
        match spec_find(s, seq!['>']) {
            Some(k) => {
                lemma_spec_find_bound(s, seq!['>'], k);
            },
            None => {},
        }
    }
}

/// Reduces an HTML body to its text: removes every angle-bracketed
/// segment, then trims blanks from both ends.
#[verifier::loop_isolation(false)]
pub fn html_to_text(html: &str) -> (r: String)
    ensures
        r@ == trimmed(spec_stripped(html@)),
{
    let s = str_to_chars(html);
    let close: Vec<char> = vec!['>'];
    proof {
        assert(close@ =~= seq!['>']);
        assert(s@.skip(0) =~= s@);
    }
    let mut acc: Vec<char> = Vec::new();
    let mut i: usize = 0;
    while i < s.len()
        invariant
            i <= s@.len(),
            spec_stripped(s@) == acc@ + spec_stripped(s@.skip(i as int)),
        decreases s@.len() - i,
    {
        let ghost rest = s@.skip(i as int);
        if s[i] == '<' {
            let tail = sub_chars(&s, i, s.len());
            proof {
                assert(tail@ =~= rest);
            }
            match find_first(&tail, &close) {
                Some(k) => {
                    proof {
                        lemma_spec_find_bound(rest, seq!['>'], k as int);
                        assert(rest.skip(k + 1) =~= s@.skip(i + k + 1));
                    }
                    i = i + k + 1;
                },
                None => {
                    push_all(&mut acc, &tail);
                    proof {
                        assert(spec_stripped(rest) == rest);
                    }
                    i = s.len();
                },
            }
        } else {
            proof {
                assert(rest[0] == s@[i as int]);
                assert(rest.skip(1) =~= s@.skip(i + 1));
            }
            acc.push(s[i]);
            i += 1;
        }
    }
    proof {
        assert(s@.skip(s@.len() as int) =~= Seq::<char>::empty());
        assert(acc@ =~= spec_stripped(s@));
    }
    let cleaned = trim_chars(&acc);
    chars_to_string(&cleaned)
}

} // verus!
