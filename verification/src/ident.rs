//! Package identifiers and the archive-filename parser.
//!
//! An archive in the cache is named `<name>-<version>.<ext>` where the name
//! may itself contain hyphens and the version never does. The parser strips
//! the fixed extension and splits the remainder at the *last* hyphen, so
//! multi-hyphen names survive intact.

use vstd::prelude::*;

verus! {

/// A parsed package identity: the key every downstream component uses for
/// naming, ordering and reporting.
#[derive(Debug)]
pub struct PackageId {
    pub name: String,
    pub version: String,
}

/// Why a cache entry could not be turned into a `PackageId`.
#[derive(Debug, Clone, Copy, PartialEq, Eq, Structural)]
pub enum ParseError {
    /// The filename does not end in the archive extension, or its stem has
    /// no hyphen to separate a name from a version.
    MalformedIdentifier,
}

/// The fixed extension of every archive in the cache, including the dot.
pub open spec fn archive_ext() -> Seq<char> {
    ".crate"@
}

/// `s` ends with the suffix `suf`.
pub open spec fn ends_with(s: Seq<char>, suf: Seq<char>) -> bool {
    suf.len() <= s.len() && s.skip(s.len() - suf.len()) == suf
}

/// The filename with its archive extension removed.
pub open spec fn stem_of(f: Seq<char>) -> Seq<char> {
    f.take(f.len() - archive_ext().len())
}

/// `s` contains at least one hyphen.
pub open spec fn has_hyphen(s: Seq<char>) -> bool {
    exists|i: int| 0 <= i < s.len() && #[trigger] s[i] == '-'
}

/// Index of the last hyphen in `s`, or -1 if there is none.
pub open spec fn last_hyphen(s: Seq<char>) -> int
    decreases s.len(),
{
    if s.len() == 0 {
        -1
    } else if s[s.len() - 1] == '-' {
        s.len() - 1
    } else {
        last_hyphen(s.drop_last())
    }
}

/// A filename the parser accepts: it carries the archive extension and its
/// stem has a hyphen separating name from version.
pub open spec fn valid_archive_name(f: Seq<char>) -> bool {
    ends_with(f, archive_ext()) && has_hyphen(stem_of(f))
}

/// The name part of a valid archive filename: the stem up to its last hyphen.
pub open spec fn parsed_name(f: Seq<char>) -> Seq<char> {
    stem_of(f).take(last_hyphen(stem_of(f)))
}

/// The version part of a valid archive filename: the stem past its last hyphen.
pub open spec fn parsed_version(f: Seq<char>) -> Seq<char> {
    stem_of(f).skip(last_hyphen(stem_of(f)) + 1)
}

impl PackageId {
    /// The canonical `name-version` string, viewed as a character sequence.
    /// It is the corpus sort key and the stem of every artifact filename.
    pub open spec fn canon(self) -> Seq<char> {
        self.name@ + seq!['-'] + self.version@
    }

    /// Builds the canonical `name-version` string.
    pub fn canonical(&self) -> (r: String)
        ensures
            r@ == self.canon(),
    {
        proof {
            reveal_strlit("-");
        }
        let mut s = self.name.clone();
        s.append("-");
        s.append(self.version.as_str());
        proof {
            assert(s@ =~= self.canon());
        }
        s
    }

    /// Field-for-field equality of two identifiers.
    pub fn same_id(&self, other: &PackageId) -> (r: bool)
        ensures
            r == (self.name@ == other.name@ && self.version@ == other.version@),
    {
        self.name == other.name && self.version == other.version
    }
}

impl Clone for PackageId {
    fn clone(&self) -> (r: Self)
        ensures
            r == *self,
    {
        PackageId { name: self.name.clone(), version: self.version.clone() }
    }
}

/// A parsed identifier is well formed: its version carries no hyphen, so
/// the canonical `name-version` string determines both fields.
pub open spec fn wf_id(id: PackageId) -> bool {
    !has_hyphen(id.version@)
}

/// The position `k` of a hyphen with none after it is exactly `last_hyphen`.
proof fn lemma_last_hyphen_at(s: Seq<char>, k: int)
    requires
        0 <= k < s.len(),
        s[k] == '-',
        forall|j: int| k < j < s.len() ==> s[j] != '-',
    ensures
        last_hyphen(s) == k,
    decreases s.len(),
{
    if k < s.len() - 1 {
        lemma_last_hyphen_at(s.drop_last(), k);
    }
}

/// Two well-formed identifiers with the same canonical string are the same
/// identifier: with a hyphen-free version, the last hyphen of the canonical
/// string can only be the separator that built it.
pub proof fn lemma_canon_injective(a: PackageId, b: PackageId)
    requires
        wf_id(a),
        wf_id(b),
        a.canon() == b.canon(),
    ensures
        a.name@ == b.name@,
        a.version@ == b.version@,
{
    let c = a.canon();
    lemma_canon_last_hyphen(a);
    lemma_canon_last_hyphen(b);
    assert(a.name@ =~= c.take(a.name@.len() as int));
    assert(b.name@ =~= c.take(b.name@.len() as int));
    assert(a.version@ =~= c.skip(a.name@.len() + 1 as int));
    assert(b.version@ =~= c.skip(b.name@.len() + 1 as int));
}

/// The last hyphen of a well-formed identifier's canonical string is the
/// separator between name and version.
pub proof fn lemma_canon_last_hyphen(a: PackageId)
    requires
        wf_id(a),
    ensures
        last_hyphen(a.canon()) == a.name@.len(),
{
    let c = a.canon();
    assert forall|t: int| 0 <= t < a.version@.len() implies a.version@[t] != '-' by {
        if a.version@[t] == '-' {
            assert(has_hyphen(a.version@));
        }
    }
    assert(c[a.name@.len() as int] == '-');
    assert(forall|j: int|
        a.name@.len() < j < c.len() ==> #[trigger] c[j] == a.version@[j - a.name@.len() - 1]);
    lemma_last_hyphen_at(c, a.name@.len() as int);
}

/// `s` ends with `suf` exactly when the characters of its tail match `suf`.
fn ends_with_str(s: &str, suf: &str) -> (r: bool)
    ensures
        r == ends_with(s@, suf@),
{
    let n = s.unicode_len();
    let m = suf.unicode_len();
    if m > n {
        return false;
    }
    let mut j: usize = 0;
    #[verifier::loop_isolation(false)]
    while j < m
        invariant
            0 <= j <= m,
            forall|k: int| 0 <= k < j ==> s@[n - m + k] == suf@[k],
        decreases m - j,
    {
        if s.get_char(n - m + j) != suf.get_char(j) {
            assert(s@.skip(n - m)[j as int] != suf@[j as int]);
            return false;
        }
        j = j + 1;
    }
    proof {
        assert(s@.skip(n - m) =~= suf@);
    }
    true
}

/// Turns one raw archive filename into a structured identifier: strips the
/// fixed extension, then splits the stem at its last hyphen. Returns
/// `MalformedIdentifier` exactly when the filename lacks the extension or
/// the stem has no hyphen.
pub fn parse_filename(filename: &str) -> (r: Result<PackageId, ParseError>)
    ensures
        r is Ok <==> valid_archive_name(filename@),
        r matches Ok(id) ==> id.name@ == parsed_name(filename@) && id.version@ == parsed_version(
            filename@,
        ),
        r matches Ok(id) ==> wf_id(id),
        r matches Err(e) ==> e == ParseError::MalformedIdentifier,
{
    proof {
        reveal_strlit(".crate");
    }
    if !ends_with_str(filename, ".crate") {
        return Err(ParseError::MalformedIdentifier);
    }
    let n = filename.unicode_len();
    let stem = filename.substring_char(0, n - 6);
    let stem_len = n - 6;
    proof {
        assert(stem@ =~= stem_of(filename@));
    }
    let mut i = stem_len;
    #[verifier::loop_isolation(false)]
    while i > 0
        invariant
            0 <= i <= stem_len,
            forall|j: int| i <= j < stem@.len() ==> stem@[j] != '-',
        decreases i,
    {
        i = i - 1;
        if stem.get_char(i) == '-' {
            proof {
                lemma_last_hyphen_at(stem@, i as int);
            }
            let name = String::from_str(stem.substring_char(0, i));
            let version = String::from_str(stem.substring_char(i + 1, stem_len));
            proof {
                assert(name@ =~= parsed_name(filename@));
                assert(version@ =~= parsed_version(filename@));
                assert forall|t: int| 0 <= t < version@.len() implies version@[t] != '-' by {
                    assert(version@[t] == stem@[i + 1 + t]);
                }
                assert(!has_hyphen(version@));
            }
            return Ok(PackageId { name, version });
        }
    }
    assert(!has_hyphen(stem_of(filename@)));
    Err(ParseError::MalformedIdentifier)
}

/// Round-trip law of the identifier parser: any filename assembled as
/// `<name>-<version>.<ext>`, with a hyphen-free version and a name holding
/// any number of internal hyphens, parses back to exactly that name and
/// version.
pub proof fn lemma_parse_round_trip(name: Seq<char>, version: Seq<char>)
    requires
        forall|i: int| 0 <= i < version.len() ==> version[i] != '-',
    ensures
        ({
            let f = name + seq!['-'] + version + archive_ext();
            &&& valid_archive_name(f)
            &&& parsed_name(f) == name
            &&& parsed_version(f) == version
        }),
{
    let f = name + seq!['-'] + version + archive_ext();
    let stem = name + seq!['-'] + version;
    assert(f.skip(f.len() - archive_ext().len()) =~= archive_ext());
    assert(stem_of(f) =~= stem);
    assert(stem[name.len() as int] == '-');
    assert(forall|j: int|
        name.len() < j < stem.len() ==> #[trigger] stem[j] == version[j - name.len() - 1]);
    lemma_last_hyphen_at(stem, name.len() as int);
    assert(stem.take(name.len() as int) =~= name);
    assert(stem.skip(name.len() + 1 as int) =~= version);
}

} // verus!
