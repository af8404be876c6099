//! The identifier synthesizer: turns an arbitrary raw key into an
//! identifier-style name, with optional prefixing and a fallback that keeps
//! the result from starting with a digit.

use vstd::prelude::*;
use vstd::string::StrSliceExecFns;
use vstd::string::StringExecFns;

use crate::chars::is_alnum;
use crate::chars::is_digit;
use crate::chars::is_punct;
use crate::chars::is_space;
use crate::chars::spec_is_alnum;
use crate::chars::spec_is_digit;
use crate::chars::spec_is_punct;
use crate::chars::spec_is_space;
use crate::chars::spec_upper;
use crate::chars::upper;

verus! {

/// Why a synthesis attempt was rejected.
#[derive(Debug, Clone, Copy, PartialEq, Eq, Structural)]
pub enum SynthError {
    /// The configured prefix starts with a decimal digit.
    PrefixLeadingDigit,
    /// The synthesized identifier came out empty.
    EmptyIdentifier,
    /// The synthesized identifier still starts with a digit after the
    /// fallback prefixing step.
    LeadingDigit,
}

/// Removing this character also asks that the next retained character be
/// upper-cased.
pub open spec fn spec_sets_upper(c: char) -> bool {
    spec_is_punct(c) || spec_is_space(c)
}

#[verifier::when_used_as_spec(spec_sets_upper)]
pub fn sets_upper(c: char) -> (b: bool)
    ensures
        b == spec_sets_upper(c),
{
    is_punct(c) || is_space(c)
}

/// The scan over the raw key, starting with the given capitalization flag:
/// characters outside the ASCII alphanumeric class are dropped (punctuation
/// and whitespace additionally set the flag), and a retained character is
/// upper-cased exactly when the flag is set.
pub open spec fn transform_from(s: Seq<char>, upper_next: bool) -> Seq<char>
    decreases s.len(),
{
    if s.len() == 0 {
        Seq::empty()
    } else {
        let c = s[0];
        if spec_is_alnum(c) {
            let d = if upper_next {
                spec_upper(c)
            } else {
                c
            };
            seq![d] + transform_from(s.skip(1), false)
        } else {
            transform_from(s.skip(1), upper_next || spec_sets_upper(c))
        }
    }
}

/// The scan over a whole raw key: the capitalization flag starts set, so the
/// first retained character is always upper-cased.
pub open spec fn transform(s: Seq<char>) -> Seq<char> {
    transform_from(s, true)
}

/// The view of an optional prefix: absent means empty.
pub open spec fn prefix_view(p: Option<&str>) -> Seq<char> {
    match p {
        Some(q) => q@,
        None => Seq::empty(),
    }
}

/// The buffer after seeding: the transformed key, with the prefix in front
/// when prefixing is unconditional or when the transformed key would start
/// with a digit (the fallback).
pub open spec fn seeded(key: Seq<char>, p: Seq<char>, always: bool) -> Seq<char> {
    if always || (transform(key).len() > 0 && spec_is_digit(transform(key)[0])) {
        p + transform(key)
    } else {
        transform(key)
    }
}

/// What synthesis returns: the seeded buffer, unless the prefix is malformed
/// or the buffer is empty or still digit-leading.
pub open spec fn synth_spec(key: Seq<char>, p: Seq<char>, always: bool) -> Result<
    Seq<char>,
    SynthError,
> {
    if p.len() > 0 && spec_is_digit(p[0]) {
        Err(SynthError::PrefixLeadingDigit)
    } else {
        let out = seeded(key, p, always);
        if out.len() == 0 {
            Err(SynthError::EmptyIdentifier)
        } else if spec_is_digit(out[0]) {
            Err(SynthError::LeadingDigit)
        } else {
            Ok(out)
        }
    }
}

/// Relies on String::push: appends exactly the one character at the end.
#[verifier::external_body]
fn push_char(s: &mut String, c: char)
    ensures
        final(s)@ == old(s)@.push(c),
{
    s.push(c);
}

/// Synthesize an identifier from a raw key: drop every character outside the
/// ASCII alphanumeric class, upper-case the first retained character and each
/// retained character that follows dropped punctuation or whitespace, and put
/// the prefix in front either unconditionally or as a fallback when the
/// result would start with a digit.
pub fn synthesize(raw_key: &str, prefix: Option<&str>, always_prefix: bool) -> (r: Result<
    String,
    SynthError,
>)
    ensures
        match r {
            Ok(s) => synth_spec(raw_key@, prefix_view(prefix), always_prefix) == Ok::<
                Seq<char>,
                SynthError,
            >(s@),
            Err(e) => synth_spec(raw_key@, prefix_view(prefix), always_prefix) == Err::<
                Seq<char>,
                SynthError,
            >(e),
        },
{
    let p: &str = match prefix {
        Some(q) => q,
        None => "",
    };
    proof {
        reveal_strlit("");
        assert(p@ =~= prefix_view(prefix));
    }
    let ghost pv = prefix_view(prefix);

    if p.unicode_len() > 0 {
        let c0 = p.get_char(0);
        if is_digit(c0) {
            return Err(SynthError::PrefixLeadingDigit);
        }
    }

    let n = raw_key.unicode_len();
    let mut body = String::new();
    let mut upper_next = true;
    let mut i: usize = 0;
    proof {
        assert(raw_key@.skip(0) =~= raw_key@);
    }
    while i < n
        invariant
            n == raw_key@.len(),
            i <= n,
            body@ + transform_from(raw_key@.skip(i as int), upper_next) =~= transform(raw_key@),
        decreases n - i,
    {
        let c = raw_key.get_char(i);
        proof {
            assert(raw_key@.skip(i as int)[0] == c);
            assert(raw_key@.skip(i as int).skip(1) =~= raw_key@.skip(i + 1));
        }
        if is_alnum(c) {
            let d = if upper_next {
                upper(c)
            } else {
                c
            };
            push_char(&mut body, d);
            proof {
                assert(body@ + transform_from(raw_key@.skip(i + 1), false) =~= transform(
                    raw_key@,
                ));
            }
            upper_next = false;
        } else {
            if sets_upper(c) {
                upper_next = true;
            }
        }
        i += 1;
    }
    proof {
        assert(raw_key@.skip(n as int) =~= Seq::<char>::empty());
        assert(body@ =~= transform(raw_key@));
    }

    let body_len = body.as_str().unicode_len();
    let use_prefix: bool = if always_prefix {
        true
    } else if body_len > 0 {
        is_digit(body.as_str().get_char(0))
    } else {
        false
    };
    let out: String = if use_prefix {
        let mut o = String::from_str(p);
        o.append(body.as_str());
        o
    } else {
        body
    };
    proof {
        assert(out@ =~= seeded(raw_key@, pv, always_prefix));
    }

    if out.as_str().unicode_len() == 0 {
        return Err(SynthError::EmptyIdentifier);
    }
    let first = out.as_str().get_char(0);
    if is_digit(first) {
        return Err(SynthError::LeadingDigit);
    }
    Ok(out)
}

} // verus!
