//! Laws of the identifier synthesizer: what every synthesized identifier
//! looks like, and that synthesis projects onto its own fixed-point set.

use vstd::prelude::*;

use crate::chars::spec_is_alnum;
use crate::chars::spec_is_digit;
use crate::chars::spec_upper;
use crate::synth::seeded;
use crate::synth::synth_spec;
use crate::synth::transform;
use crate::synth::transform_from;
use crate::synth::SynthError;

verus! {

/// The characters of a raw key that synthesis retains, in order.
pub open spec fn retained(s: Seq<char>) -> Seq<char>
    decreases s.len(),
{
    if s.len() == 0 {
        Seq::empty()
    } else if spec_is_alnum(s[0]) {
        seq![s[0]] + retained(s.skip(1))
    } else {
        retained(s.skip(1))
    }
}

/// Upper-casing keeps a character ASCII alphanumeric.
proof fn lemma_upper_alnum(c: char)
    requires
        spec_is_alnum(c),
    ensures
        spec_is_alnum(spec_upper(c)),
{
}

/// Upper-casing is idempotent.
proof fn lemma_upper_fixed(c: char)
    ensures
        spec_upper(spec_upper(c)) == spec_upper(c),
{
}

/// Every character of a transformed key is ASCII alphanumeric.
pub proof fn lemma_transform_alnum(s: Seq<char>, f: bool)
    ensures
        forall|j: int|
            0 <= j < transform_from(s, f).len() ==> spec_is_alnum(#[trigger] transform_from(s, f)[j]),
    decreases s.len(),
{
    if s.len() == 0 {
    } else {
        let c = s[0];
        if spec_is_alnum(c) {
            lemma_transform_alnum(s.skip(1), false);
            lemma_upper_alnum(c);
            let d = if f {
                spec_upper(c)
            } else {
                c
            };
            let rest = transform_from(s.skip(1), false);
            assert forall|j: int| 0 <= j < transform_from(s, f).len() implies spec_is_alnum(
                #[trigger] transform_from(s, f)[j],
            ) by {
                assert(transform_from(s, f) == seq![d] + rest);
                if j == 0 {
                    assert(transform_from(s, f)[0] == d);
                } else {
                    assert(transform_from(s, f)[j] == rest[j - 1]);
                }
            }
        } else {
            lemma_transform_alnum(s.skip(1), f || crate::synth::spec_sets_upper(c));
            assert(transform_from(s, f) == transform_from(
                s.skip(1),
                f || crate::synth::spec_sets_upper(c),
            ));
        }
    }
}

/// A transformed key has exactly one character per retained character, and
/// its first character is the first retained character upper-cased.
pub proof fn lemma_transform_head(s: Seq<char>)
    ensures
        transform_from(s, true).len() == retained(s).len(),
        transform_from(s, true).len() > 0 ==> transform_from(s, true)[0] == spec_upper(
            retained(s)[0],
        ),
    decreases s.len(),
{
    if s.len() == 0 {
    } else {
        let c = s[0];
        if spec_is_alnum(c) {
            lemma_transform_len(s.skip(1), false);
        } else {
            lemma_transform_head(s.skip(1));
            assert(transform_from(s, true) == transform_from(s.skip(1), true));
        }
    }
}

/// A transformed key has exactly one character per retained character.
pub proof fn lemma_transform_len(s: Seq<char>, f: bool)
    ensures
        transform_from(s, f).len() == retained(s).len(),
    decreases s.len(),
{
    if s.len() == 0 {
    } else {
        let c = s[0];
        if spec_is_alnum(c) {
            lemma_transform_len(s.skip(1), false);
        } else {
            lemma_transform_len(s.skip(1), f || crate::synth::spec_sets_upper(c));
        }
    }
}

/// On a key made only of ASCII alphanumerics the scan keeps every character,
/// upper-casing the first one exactly when the flag starts set.
proof fn lemma_transform_all_kept(s: Seq<char>, f: bool)
    requires
        forall|j: int| 0 <= j < s.len() ==> spec_is_alnum(#[trigger] s[j]),
    ensures
        !f ==> transform_from(s, f) == s,
        (f && s.len() > 0) ==> transform_from(s, f) == seq![spec_upper(s[0])] + s.skip(1),
    decreases s.len(),
{
    if s.len() == 0 {
        assert(transform_from(s, f) =~= s);
    } else {
        assert(forall|j: int|
            0 <= j < s.skip(1).len() ==> spec_is_alnum(#[trigger] s.skip(1)[j]));
        lemma_transform_all_kept(s.skip(1), false);
        if !f {
            assert(transform_from(s, f) =~= s);
        } else {
            assert(transform_from(s, f) =~= seq![spec_upper(s[0])] + s.skip(1));
        }
    }
}

/// Law: with unconditional prefixing, a successful synthesis starts with the
/// first character of the prefix, or — when the prefix is empty — with the
/// first retained character of the key, upper-cased.
pub proof fn lemma_always_prefix_head(key: Seq<char>, p: Seq<char>)
    ensures
        match synth_spec(key, p, true) {
            Ok(r) => {
                &&& p.len() > 0 ==> r[0] == p[0]
                &&& p.len() == 0 ==> retained(key).len() > 0 && r[0] == spec_upper(
                    retained(key)[0],
                )
            },
            Err(_) => true,
        },
{
    if !(p.len() > 0 && spec_is_digit(p[0])) {
        let out = seeded(key, p, true);
        assert(out == p + transform(key));
        if out.len() > 0 && !spec_is_digit(out[0]) {
            if p.len() > 0 {
                assert(out[0] == p[0]);
            } else {
                assert(out[0] == transform(key)[0]);
                lemma_transform_head(key);
            }
        }
    }
}

/// Law: without a prefix, every character of a successful synthesis is ASCII
/// alphanumeric — no punctuation or whitespace survives.
pub proof fn lemma_no_prefix_alnum(key: Seq<char>)
    ensures
        match synth_spec(key, Seq::empty(), false) {
            Ok(r) => forall|j: int| 0 <= j < r.len() ==> spec_is_alnum(#[trigger] r[j]),
            Err(_) => true,
        },
{
    let p = Seq::<char>::empty();
    let out = seeded(key, p, false);
    lemma_transform_alnum(key, true);
    assert(out =~= transform(key));
}

/// Law: synthesis projects onto its own fixed-point set — feeding a
/// successful output back in as a raw key, with the same prefix and the
/// fallback mode, returns it unchanged. This asks that the prefix be ASCII
/// alphanumeric with an upper-case-stable first character; otherwise
/// re-synthesis would drop or re-case prefix characters.
pub proof fn lemma_resynthesis_fixed_point(key: Seq<char>, p: Seq<char>, always: bool)
    requires
        forall|j: int| 0 <= j < p.len() ==> spec_is_alnum(#[trigger] p[j]),
        p.len() > 0 ==> p[0] == spec_upper(p[0]),
    ensures
        match synth_spec(key, p, always) {
            Ok(r) => synth_spec(r, p, false) == Ok::<Seq<char>, SynthError>(r),
            Err(_) => true,
        },
{
    if synth_spec(key, p, always) matches Ok(r) {
        let r = seeded(key, p, always);
        assert(r.len() > 0 && !spec_is_digit(r[0]));
        // Every character of the output is ASCII alphanumeric.
        lemma_transform_alnum(key, true);
        let b = transform(key);
        if r == p + b {
            assert(forall|j: int| 0 <= j < r.len() ==> spec_is_alnum(#[trigger] r[j])) by {
                assert(forall|j: int|
                    0 <= j < r.len() ==> r[j] == (if j < p.len() {
                        p[j]
                    } else {
                        b[j - p.len()]
                    }));
            }
        } else {
            assert(r == b);
        }
        // The first character of the output is upper-case-stable.
        if p.len() > 0 && r == p + b {
            assert(r[0] == p[0]);
        } else {
            assert(r[0] == b[0]);
            lemma_transform_head(key);
            lemma_upper_fixed(retained(key)[0]);
        }
        assert(r[0] == spec_upper(r[0]));
        // So the re-scan keeps the output unchanged.
        lemma_transform_all_kept(r, true);
        assert(transform(r) =~= r);
        assert(seeded(r, p, false) == r);
    }
}

} // verus!
