//! The enumeration assembler: synthesizes one identifier per raw key, rejects
//! duplicate identifiers, resolves the designated default variant, and hands
//! out the closed enumeration with its reverse mapping.

use vstd::prelude::*;
use vstd::string::StrSliceExecFns;
use vstd::string::StringExecFns;

use crate::chars::is_digit;
use crate::chars::spec_is_digit;
use crate::synth::prefix_view;
use crate::synth::seeded;
use crate::synth::synth_spec;
use crate::synth::synthesize;
use crate::synth::SynthError;

verus! {

/// Why a generation attempt was rejected.
#[derive(Debug, PartialEq, Eq)]
pub enum GenError {
    /// The configured prefix starts with a decimal digit.
    PrefixLeadingDigit,
    /// Synthesis rejected this raw key, for the given cause.
    Synthesis(String, SynthError),
    /// Two distinct raw keys synthesized to this same identifier.
    DuplicateIdentifier(String),
    /// The configured default matches no synthesized identifier.
    DefaultNotFound(String),
    /// The manifest is not a JSON document with an object at its root.
    SourceParse,
}

/// The views of a sequence of strings.
pub open spec fn str_seqs(v: Seq<String>) -> Seq<Seq<char>> {
    v.map_values(|s: String| s@)
}

/// No two elements are equal.
pub open spec fn distinct_seqs(s: Seq<Seq<char>>) -> bool {
    forall|i: int, j: int| 0 <= i < j < s.len() ==> s[i] != s[j]
}

/// Synthesis succeeds on every key.
pub open spec fn all_ok(ks: Seq<Seq<char>>, p: Seq<char>, always: bool) -> bool {
    forall|i: int| 0 <= i < ks.len() ==> #[trigger] synth_spec(ks[i], p, always) matches Ok(_)
}

/// The identifier synthesized for each key.
pub open spec fn idents_of(ks: Seq<Seq<char>>, p: Seq<char>, always: bool) -> Seq<Seq<char>> {
    ks.map_values(|k: Seq<char>| seeded(k, p, always))
}

/// The styling-class form of a raw key.
pub open spec fn css_class(key: Seq<char>) -> Seq<char> {
    seq!['b', 'i', '-'] + key
}

/// The closed enumeration derived from one manifest: each synthesized
/// identifier with its originating raw key, in declaration order, plus the
/// designated default variant.
pub struct IconEnum {
    raw_keys: Vec<String>,
    identifiers: Vec<String>,
    default_index: usize,
}

impl IconEnum {
    /// The raw keys, in declaration order.
    pub closed spec fn keys(self) -> Seq<Seq<char>> {
        str_seqs(self.raw_keys@)
    }

    /// The synthesized identifiers, in declaration order.
    pub closed spec fn idents(self) -> Seq<Seq<char>> {
        str_seqs(self.identifiers@)
    }

    /// Which variant is the default.
    pub closed spec fn default_idx(self) -> int {
        self.default_index as int
    }

    /// One identifier per key, all identifiers distinct, and the default in
    /// range.
    pub closed spec fn wf(self) -> bool {
        &&& self.raw_keys@.len() == self.identifiers@.len()
        &&& self.default_index < self.identifiers@.len()
        &&& distinct_seqs(self.idents())
    }

    /// How many variants the enumeration has.
    pub fn len(&self) -> (n: usize)
        ensures
            n == self.keys().len(),
    {
        self.raw_keys.len()
    }

    /// All synthesized identifiers, in declaration order.
    pub fn identifiers(&self) -> (v: &Vec<String>)
        ensures
            str_seqs(v@) == self.idents(),
    {
        &self.identifiers
    }

    /// The raw key of one variant.
    pub fn raw_key(&self, i: usize) -> (k: &String)
        requires
            i < self.keys().len(),
        ensures
            k@ == self.keys()[i as int],
    {
        &self.raw_keys[i]
    }

    /// The synthesized identifier of one variant.
    pub fn identifier(&self, i: usize) -> (s: &String)
        requires
            self.wf(),
            i < self.keys().len(),
        ensures
            s@ == self.idents()[i as int],
    {
        &self.identifiers[i]
    }

    /// Which variant is the default.
    pub fn default_index(&self) -> (i: usize)
        ensures
            i as int == self.default_idx(),
    {
        self.default_index
    }

    /// The identifier of the default variant.
    pub fn default_identifier(&self) -> (s: &String)
        requires
            self.wf(),
        ensures
            s@ == self.idents()[self.default_idx()],
    {
        &self.identifiers[self.default_index]
    }

    /// The raw key of the default variant.
    pub fn default_raw_key(&self) -> (k: &String)
        requires
            self.wf(),
        ensures
            k@ == self.keys()[self.default_idx()],
    {
        &self.raw_keys[self.default_index]
    }

    /// The reverse mapping: the raw key whose variant carries this
    /// identifier, if any does.
    pub fn raw_key_of(&self, ident: &str) -> (r: Option<&String>)
        requires
            self.wf(),
        ensures
            match r {
                Some(k) => exists|i: int|
                    0 <= i < self.idents().len() && #[trigger] self.idents()[i] == ident@
                        && self.keys()[i] == k@,
                None => forall|i: int|
                    0 <= i < self.idents().len() ==> #[trigger] self.idents()[i] != ident@,
            },
    {
        let n = self.identifiers.len();
        let mut i: usize = 0;
        while i < n
            invariant
                self.wf(),
                n == self.identifiers@.len(),
                i <= n,
                forall|j: int| 0 <= j < i ==> #[trigger] self.idents()[j] != ident@,
            decreases n - i,
        {
            if str_eq(self.identifiers[i].as_str(), ident) {
                proof {
                    assert(self.idents()[i as int] == ident@);
                    assert(self.keys()[i as int] == self.raw_keys@[i as int]@);
                }
                return Some(&self.raw_keys[i]);
            }
            i += 1;
        }
        None
    }

    /// The styling-class form of one variant, from its raw key.
    pub fn class_string(&self, i: usize) -> (s: String)
        requires
            i < self.keys().len(),
        ensures
            s@ == css_class(self.keys()[i as int]),
    {
        let mut s = String::from_str("bi-");
        proof {
            reveal_strlit("bi-");
            assert(s@ =~= seq!['b', 'i', '-']);
        }
        s.append(self.raw_keys[i].as_str());
        proof {
            assert(s@ =~= css_class(self.keys()[i as int]));
        }
        s
    }
}

/// Whether two string slices hold the same characters.
pub fn str_eq(a: &str, b: &str) -> (r: bool)
    ensures
        r == (a@ == b@),
{
    let na = a.unicode_len();
    let nb = b.unicode_len();
    if na != nb {
        return false;
    }
    let mut i: usize = 0;
    while i < na
        invariant
            na == a@.len(),
            nb == b@.len(),
            na == nb,
            i <= na,
            forall|j: int| 0 <= j < i ==> a@[j] == b@[j],
        decreases na - i,
    {
        if a.get_char(i) != b.get_char(i) {
            return false;
        }
        i += 1;
    }
    proof {
        assert(a@ =~= b@);
    }
    true
}

/// What assembling an enumeration returns, for a given key sequence: the
/// enumeration exactly when the prefix is well-formed, every key synthesizes,
/// the identifiers are pairwise distinct and one of them is the configured
/// default; otherwise the error of the first violated condition.
pub open spec fn assemble_post(
    r: Result<IconEnum, GenError>,
    ks: Seq<Seq<char>>,
    p: Seq<char>,
    always: bool,
    dk: Seq<char>,
) -> bool {
    if p.len() > 0 && spec_is_digit(p[0]) {
        r matches Err(GenError::PrefixLeadingDigit)
    } else {
        let ids = idents_of(ks, p, always);
        match r {
            Ok(e) => {
                &&& all_ok(ks, p, always)
                &&& e.wf()
                &&& e.keys() == ks
                &&& e.idents() == ids
                &&& distinct_seqs(ids)
                &&& 0 <= e.default_idx() < ids.len()
                &&& ids[e.default_idx()] == dk
                &&& forall|i: int| 0 <= i < e.default_idx() ==> #[trigger] ids[i] != dk
            },
            Err(ge) => match ge {
                GenError::PrefixLeadingDigit => false,
                GenError::Synthesis(key, cause) => exists|i: int|
                    {
                        &&& 0 <= i < ks.len()
                        &&& #[trigger] synth_spec(ks[i], p, always) == Err::<Seq<char>, SynthError>(
                            cause,
                        )
                        &&& key@ == ks[i]
                        &&& forall|j: int|
                            0 <= j < i ==> #[trigger] synth_spec(ks[j], p, always) matches Ok(_)
                    },
                GenError::DuplicateIdentifier(id) => {
                    &&& all_ok(ks, p, always)
                    &&& exists|i: int, j: int|
                        0 <= i < j < ks.len() && #[trigger] ids[i] == #[trigger] ids[j] && id@
                            == ids[j]
                },
                GenError::DefaultNotFound(d) => {
                    &&& all_ok(ks, p, always)
                    &&& distinct_seqs(ids)
                    &&& d@ == dk
                    &&& forall|i: int| 0 <= i < ids.len() ==> #[trigger] ids[i] != dk
                },
                GenError::SourceParse => false,
            },
        }
    }
}

/// Assemble the enumeration for the given raw keys: synthesize one identifier
/// per key, reject duplicate identifiers, and resolve the default — which is
/// named by its synthesized form, not by a raw key.
pub fn assemble(
    raw_keys: Vec<String>,
    prefix: Option<&str>,
    always_prefix: bool,
    default_key: &str,
) -> (r: Result<IconEnum, GenError>)
    ensures
        assemble_post(
            r,
            str_seqs(raw_keys@),
            prefix_view(prefix),
            always_prefix,
            default_key@,
        ),
{
    let ghost ks = str_seqs(raw_keys@);
    let ghost pv = prefix_view(prefix);

    match prefix {
        Some(p) => {
            if p.unicode_len() > 0 && is_digit(p.get_char(0)) {
                return Err(GenError::PrefixLeadingDigit);
            }
        },
        None => {},
    }
    assert(!(pv.len() > 0 && spec_is_digit(pv[0])));

    let n = raw_keys.len();
    let mut identifiers: Vec<String> = Vec::new();
    let mut idx: usize = 0;
    while idx < n
        invariant
            n == raw_keys@.len(),
            idx <= n,
            ks == str_seqs(raw_keys@),
            pv == prefix_view(prefix),
            !(pv.len() > 0 && spec_is_digit(pv[0])),
            identifiers@.len() == idx,
            forall|j: int|
                0 <= j < idx ==> #[trigger] synth_spec(ks[j], pv, always_prefix) == Ok::<
                    Seq<char>,
                    SynthError,
                >(identifiers@[j]@),
        decreases n - idx,
    {
        match synthesize(raw_keys[idx].as_str(), prefix, always_prefix) {
            Ok(s) => {
                identifiers.push(s);
            },
            Err(e) => {
                let key = raw_keys[idx].clone();
                proof {
                    assert(synth_spec(ks[idx as int], pv, always_prefix) == Err::<
                        Seq<char>,
                        SynthError,
                    >(e));
                }
                return Err(GenError::Synthesis(key, e));
            },
        }
        idx += 1;
    }

    let mut a: usize = 1;
    while a < n
        invariant
            n == raw_keys@.len(),
            a <= n || n == 0,
            ks == str_seqs(raw_keys@),
            pv == prefix_view(prefix),
            !(pv.len() > 0 && spec_is_digit(pv[0])),
            identifiers@.len() == n,
            forall|j: int|
                0 <= j < n ==> #[trigger] synth_spec(ks[j], pv, always_prefix) == Ok::<
                    Seq<char>,
                    SynthError,
                >(identifiers@[j]@),
            forall|x: int, y: int| 0 <= x < y < a ==> identifiers@[x]@ != identifiers@[y]@,
        decreases n - a,
    {
        let mut b: usize = 0;
        while b < a
            invariant
                n == raw_keys@.len(),
                b <= a < n,
                ks == str_seqs(raw_keys@),
                pv == prefix_view(prefix),
                !(pv.len() > 0 && spec_is_digit(pv[0])),
                identifiers@.len() == n,
                forall|j: int|
                    0 <= j < n ==> #[trigger] synth_spec(ks[j], pv, always_prefix) == Ok::<
                        Seq<char>,
                        SynthError,
                    >(identifiers@[j]@),
                forall|x: int, y: int| 0 <= x < y < a ==> identifiers@[x]@ != identifiers@[y]@,
                forall|x: int| 0 <= x < b ==> identifiers@[x]@ != identifiers@[a as int]@,
            decreases a - b,
        {
            if str_eq(identifiers[b].as_str(), identifiers[a].as_str()) {
                let id = identifiers[a].clone();
                proof {
                    let ids = idents_of(ks, pv, always_prefix);
                    assert(synth_spec(ks[b as int], pv, always_prefix) == Ok::<
                        Seq<char>,
                        SynthError,
                    >(identifiers@[b as int]@));
                    assert(synth_spec(ks[a as int], pv, always_prefix) == Ok::<
                        Seq<char>,
                        SynthError,
                    >(identifiers@[a as int]@));
                    assert(ids[b as int] == identifiers@[b as int]@);
                    assert(ids[a as int] == identifiers@[a as int]@);
                    assert(0 <= b < a < ks.len() && ids[b as int] == ids[a as int] && id@
                        == ids[a as int]);
                }
                return Err(GenError::DuplicateIdentifier(id));
            }
            b += 1;
        }
        a += 1;
    }
    proof {
        assert forall|j: int| 0 <= j < n implies str_seqs(identifiers@)[j] == idents_of(
            ks,
            pv,
            always_prefix,
        )[j] by {
            assert(synth_spec(ks[j], pv, always_prefix) == Ok::<Seq<char>, SynthError>(
                identifiers@[j]@,
            ));
        }
        assert(str_seqs(identifiers@) =~= idents_of(ks, pv, always_prefix));
    }

    let mut d: usize = 0;
    while d < n
        invariant
            n == raw_keys@.len(),
            d <= n,
            ks == str_seqs(raw_keys@),
            pv == prefix_view(prefix),
            !(pv.len() > 0 && spec_is_digit(pv[0])),
            identifiers@.len() == n,
            forall|j: int|
                0 <= j < n ==> #[trigger] synth_spec(ks[j], pv, always_prefix) == Ok::<
                    Seq<char>,
                    SynthError,
                >(identifiers@[j]@),
            str_seqs(identifiers@) == idents_of(ks, pv, always_prefix),
            distinct_seqs(str_seqs(identifiers@)),
            forall|j: int| 0 <= j < d ==> #[trigger] str_seqs(identifiers@)[j] != default_key@,
        decreases n - d,
    {
        if str_eq(identifiers[d].as_str(), default_key) {
            let e = IconEnum { raw_keys, identifiers, default_index: d };
            return Ok(e);
        }
        d += 1;
    }
    Err(GenError::DefaultNotFound(default_key.to_owned()))
}

} // verus!
