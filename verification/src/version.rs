//! The version resolver: what a specifier asks for, and which version an
//! update check settles on.
//!
//! A specifier is the word `latest` or a version of three numeric
//! components separated by dots. A component is numeric as `u32`'s
//! `FromStr` has it: an optional `+`, then at least one ASCII digit, worth
//! no more than `u32::MAX`.

use crate::numeral::{
    all_digits, decimal, digit_of, is_digit, lemma_decimal_round_trip, lemma_prefix_is_worth_less,
    numeral_value, push_decimal,
};
use crate::text::{chars_of, owned, same_text};
use vstd::prelude::*;
use vstd::string::*;

verus! {

/// The specifier that asks for the newest version there is.
pub open spec fn latest() -> Seq<char> {
    "latest"@
}

/// The version that `latest` is first pinned to.
pub open spec fn initial_version() -> Seq<char> {
    "1.0.0"@
}

/// The pieces of `s` between occurrences of `sep`: one more piece than
/// there are separators, in order, none of them holding `sep`.
pub open spec fn split(s: Seq<char>, sep: char) -> Seq<Seq<char>>
    decreases s.len(),
{
    if s.len() == 0 {
        seq![Seq::<char>::empty()]
    } else {
        let before = split(s.drop_last(), sep);
        if s.last() == sep {
            before.push(Seq::<char>::empty())
        } else {
            before.drop_last().push(before.last().push(s.last()))
        }
    }
}

/// The pieces put together again, with `sep` between neighbours.
pub open spec fn join(parts: Seq<Seq<char>>, sep: char) -> Seq<char>
    decreases parts.len(),
{
    if parts.len() == 0 {
        Seq::empty()
    } else if parts.len() == 1 {
        parts[0]
    } else {
        join(parts.drop_last(), sep) + seq![sep] + parts.last()
    }
}

/// Splitting loses nothing and leaves no separator behind: there is at
/// least one piece, no piece holds the separator, and the pieces joined
/// by the separator are the text that was split.
pub proof fn split_joins_back(s: Seq<char>, sep: char)
    ensures
        split(s, sep).len() >= 1,
        forall|i: int| 0 <= i < split(s, sep).len() ==> !(#[trigger] split(s, sep)[i]).contains(sep),
        join(split(s, sep), sep) == s,
    decreases s.len(),
{
    let parts = split(s, sep);
    if s.len() == 0 {
        assert(join(parts, sep) =~= s);
    } else {
        let before = split(s.drop_last(), sep);
        split_joins_back(s.drop_last(), sep);
        if s.last() == sep {
            assert(parts.drop_last() =~= before);
            assert(join(parts, sep) =~= s);
            assert forall|i: int| 0 <= i < parts.len() implies !(#[trigger] parts[i]).contains(
                sep,
            ) by {
                if i < before.len() {
                    assert(parts[i] == before[i]);
                }
            }
        } else {
            let grown = before.last().push(s.last());
            assert(!grown.contains(sep)) by {
                assert(!before[before.len() - 1].contains(sep));
                assert forall|k: int| 0 <= k < grown.len() implies grown[k] != sep by {
                    if k < before.last().len() {
                        assert(before.last().contains(before.last()[k]));
                    }
                }
            }
            assert forall|i: int| 0 <= i < parts.len() implies !(#[trigger] parts[i]).contains(
                sep,
            ) by {
                if i < parts.len() - 1 {
                    assert(parts[i] == before[i]);
                }
            }
            if before.len() == 1 {
                assert(join(before, sep) == before[0]);
                assert(join(parts, sep) =~= s);
            } else {
                assert(parts.drop_last() =~= before.drop_last());
                assert(join(parts, sep) =~= join(before, sep).push(s.last()));
                assert(join(parts, sep) =~= s);
            }
        }
    }
}

/// The digits of a component: what follows an optional leading `+`.
pub open spec fn component_digits(s: Seq<char>) -> Seq<char> {
    if s.len() > 0 && s[0] == '+' {
        s.drop_first()
    } else {
        s
    }
}

/// What a component is worth, if it is numeric.
pub open spec fn component_value(s: Seq<char>) -> Option<u32> {
    let digits = component_digits(s);
    if digits.len() > 0 && all_digits(digits) && numeral_value(digits) <= u32::MAX {
        Some(numeral_value(digits) as u32)
    } else {
        None
    }
}

/// A concrete version.
#[derive(Clone, Copy, Debug, PartialEq, Eq, Structural)]
pub struct Version {
    pub major: u32,
    pub minor: u32,
    pub patch: u32,
}

/// The version that `s` writes down, if it is three numeric components
/// separated by dots.
pub open spec fn version_of(s: Seq<char>) -> Option<Version> {
    let parts = split(s, '.');
    if parts.len() == 3 && component_value(parts[0]) is Some && component_value(parts[1]) is Some
        && component_value(parts[2]) is Some {
        Some(
            Version {
                major: component_value(parts[0])->0,
                minor: component_value(parts[1])->0,
                patch: component_value(parts[2])->0,
            },
        )
    } else {
        None
    }
}

/// `major.minor.patch`, each component in decimal.
pub open spec fn version_text(major: nat, minor: nat, patch: nat) -> Seq<char> {
    decimal(major) + seq!['.'] + decimal(minor) + seq!['.'] + decimal(patch)
}

/// The version to install for a requested specifier: `latest` is pinned
/// to the initial version, anything else is taken as it stands.
pub open spec fn resolved(requested: Seq<char>) -> Seq<char> {
    if requested == latest() {
        initial_version()
    } else {
        requested
    }
}

/// The version an update check settles on for a dependency recorded as
/// `current`, given whether the registry has something newer.
pub open spec fn update_target(current: Seq<char>, has_update: bool) -> Seq<char> {
    if current == latest() {
        initial_version()
    } else {
        match version_of(current) {
            None => initial_version(),
            Some(v) => if has_update {
                version_text(v.major as nat, v.minor as nat, v.patch as nat + 1)
            } else {
                current
            },
        }
    }
}

/// Whether an update check on `current` depends on the registry's answer.
pub open spec fn is_concrete(current: Seq<char>) -> bool {
    current != latest() && version_of(current) is Some
}

/// What holds no separator is one piece.
pub proof fn lemma_split_one_piece(s: Seq<char>, sep: char)
    requires
        !s.contains(sep),
    ensures
        split(s, sep) == seq![s],
    decreases s.len(),
{
    if s.len() == 0 {
        assert(s =~= Seq::<char>::empty());
    } else {
        assert(s.last() == s[s.len() - 1]);
        assert forall|i: int| 0 <= i < s.drop_last().len() implies s.drop_last()[i] != sep by {
            assert(s.drop_last()[i] == s[i]);
        }
        lemma_split_one_piece(s.drop_last(), sep);
        assert(split(s, sep) =~= seq![s.drop_last().push(s.last())]);
        assert(s.drop_last().push(s.last()) =~= s);
    }
}

/// A separator and a piece without one add that piece to the pieces.
pub proof fn lemma_split_next_piece(s: Seq<char>, piece: Seq<char>, sep: char)
    requires
        !piece.contains(sep),
    ensures
        split(s + seq![sep] + piece, sep) == split(s, sep).push(piece),
    decreases piece.len(),
{
    let whole = s + seq![sep] + piece;
    if piece.len() == 0 {
        assert(whole.drop_last() =~= s);
        assert(whole.last() == sep);
        assert(piece =~= Seq::<char>::empty());
    } else {
        let shorter = piece.drop_last();
        assert(piece.last() == piece[piece.len() - 1]);
        assert forall|i: int| 0 <= i < shorter.len() implies shorter[i] != sep by {
            assert(shorter[i] == piece[i]);
        }
        lemma_split_next_piece(s, shorter, sep);
        assert(whole.drop_last() =~= s + seq![sep] + shorter);
        assert(whole.last() == piece.last());
        let before = split(s, sep).push(shorter);
        assert(before.drop_last() =~= split(s, sep));
        assert(shorter.push(piece.last()) =~= piece);
    }
}

/// A number written in decimal is a numeric component worth that number,
/// as long as the number fits, and no component if it does not.
pub proof fn lemma_decimal_component(n: nat)
    ensures
        !decimal(n).contains('.'),
        n <= u32::MAX ==> component_value(decimal(n)) == Some(n as u32),
        n > u32::MAX ==> component_value(decimal(n)) is None,
{
    lemma_decimal_round_trip(n);
    let text = decimal(n);
    assert(is_digit(text[0]));
    assert(component_digits(text) == text);
    assert forall|i: int| 0 <= i < text.len() implies text[i] != '.' by {
        assert(is_digit(text[i]));
    }
}

/// The pieces of a version that was written down are its three
/// components.
pub proof fn lemma_version_text_pieces(major: nat, minor: nat, patch: nat)
    ensures
        split(version_text(major, minor, patch), '.') == seq![
            decimal(major),
            decimal(minor),
            decimal(patch),
        ],
{
    lemma_decimal_component(major);
    lemma_decimal_component(minor);
    lemma_decimal_component(patch);
    lemma_split_one_piece(decimal(major), '.');
    lemma_split_next_piece(decimal(major), decimal(minor), '.');
    lemma_split_next_piece(decimal(major) + seq!['.'] + decimal(minor), decimal(patch), '.');
}

/// A version that is written down reads back as itself.
pub proof fn written_version_reads_back(version: Version)
    ensures
        version_of(version_text(version.major as nat, version.minor as nat, version.patch as nat))
            == Some(version),
{
    lemma_version_text_pieces(version.major as nat, version.minor as nat, version.patch as nat);
    lemma_decimal_component(version.major as nat);
    lemma_decimal_component(version.minor as nat);
    lemma_decimal_component(version.patch as nat);
}

/// An update check on a version follows the registry: where it has
/// something newer the version changes, and where it has not the version
/// stays.
pub proof fn update_follows_the_registry(current: Seq<char>)
    requires
        is_concrete(current),
    ensures
        update_target(current, true) != current,
        update_target(current, false) == current,
{
    let version = version_of(current)->0;
    let raised = version.patch as nat + 1;
    let target = version_text(version.major as nat, version.minor as nat, raised);
    lemma_version_text_pieces(version.major as nat, version.minor as nat, raised);
    lemma_decimal_component(version.major as nat);
    lemma_decimal_component(version.minor as nat);
    lemma_decimal_component(raised);
    if raised <= u32::MAX {
        assert(version_of(target)->0.patch == raised);
    } else {
        assert(version_of(target) is None);
    }
}

/// The order of versions is a strict total order: no version is older
/// than itself, of two different versions exactly one is the older, and
/// older than older is older.
pub proof fn versions_are_totally_ordered(a: Version, b: Version, c: Version)
    ensures
        !a.older_than(a),
        a != b ==> (a.older_than(b) <==> !b.older_than(a)),
        a == b ==> !a.older_than(b),
        a.older_than(b) && b.older_than(c) ==> a.older_than(c),
{
}

/// An update that the registry has is an update indeed: the version it
/// leads to is newer than the one recorded, as long as the raised patch
/// still is a component.
pub proof fn update_is_newer(current: Seq<char>)
    requires
        is_concrete(current),
        version_of(current)->0.patch < u32::MAX,
    ensures
        version_of(update_target(current, true)) matches Some(newer) && version_of(
            current,
        )->0.older_than(newer) && newer == (Version {
            major: version_of(current)->0.major,
            minor: version_of(current)->0.minor,
            patch: (version_of(current)->0.patch + 1) as u32,
        }),
{
    let version = version_of(current)->0;
    written_version_reads_back(
        Version { major: version.major, minor: version.minor, patch: (version.patch + 1) as u32 },
    );
}

spec fn pieces(parts: Seq<Vec<char>>) -> Seq<Seq<char>> {
    parts.map_values(|p: Vec<char>| p@)
}

fn split_chars(chars: &Vec<char>, sep: char) -> (parts: Vec<Vec<char>>)
    ensures
        pieces(parts@) == split(chars@, sep),
{
    let mut done: Vec<Vec<char>> = Vec::new();
    let mut current: Vec<char> = Vec::new();
    let mut i: usize = 0;
    assert(chars@.take(0) == Seq::<char>::empty());
    assert(pieces(done@).push(current@) == seq![Seq::<char>::empty()]);
    while i < chars.len()
        invariant
            i <= chars.len(),
            pieces(done@).push(current@) == split(chars@.take(i as int), sep),
        decreases chars.len() - i,
    {
        let c = chars[i];
        let ghost prefix = chars@.take(i as int);
        let ghost next = chars@.take(i + 1);
        let ghost before = pieces(done@).push(current@);
        assert(next.drop_last() == prefix);
        assert(next.last() == c);
        if c == sep {
            let finished = current;
            done.push(finished);
            current = Vec::new();
            assert(pieces(done@) == before);
        } else {
            current.push(c);
            assert(pieces(done@).push(current@) == before.drop_last().push(before.last().push(c)));
        }
        i = i + 1;
    }
    assert(chars@.take(i as int) == chars@);
    let ghost before = pieces(done@).push(current@);
    done.push(current);
    assert(pieces(done@) == before);
    done
}

fn parse_component(part: &Vec<char>) -> (value: Option<u32>)
    ensures
        value == component_value(part@),
{
    let n = part.len();
    if n == 0 {
        return None;
    }
    let start: usize = if part[0] == '+' {
        1
    } else {
        0
    };
    let ghost digits = component_digits(part@);
    assert(digits == part@.subrange(start as int, n as int));
    if start == n {
        return None;
    }
    let mut acc: u64 = 0;
    let mut i: usize = start;
    assert(digits.take(0) == Seq::<char>::empty());
    while i < n
        invariant
            n == part.len(),
            start <= i <= n,
            digits == part@.subrange(start as int, n as int),
            digits == component_digits(part@),
            all_digits(digits.take(i - start)),
            acc == numeral_value(digits.take(i - start)),
            acc <= u32::MAX,
        decreases n - i,
    {
        let ghost seen = digits.take(i - start);
        let ghost grown = digits.take(i - start + 1);
        assert(grown.drop_last() == seen);
        assert(grown.last() == part@[i as int]);
        match digit_of(part[i]) {
            None => {
                assert(!is_digit(digits[i - start]));
                return None;
            },
            Some(d) => {
                acc = acc * 10 + d as u64;
                assert(acc == numeral_value(grown));
                if acc > 0xffff_ffff {
                    proof {
                        lemma_prefix_is_worth_less(digits, i - start + 1);
                    }
                    return None;
                }
                assert forall|k: int| 0 <= k < grown.len() implies is_digit(
                    #[trigger] grown[k],
                ) by {
                    if k < seen.len() {
                        assert(grown[k] == seen[k]);
                    }
                }
            },
        }
        i = i + 1;
    }
    assert(digits.take(n - start) == digits);
    Some(acc as u32)
}

impl Version {
    /// Whether this version is older than `other`: the components are
    /// compared as numbers, the major one first, then the minor one, then
    /// the patch.
    pub open spec fn older_than(self, other: Version) -> bool {
        self.major < other.major || (self.major == other.major && (self.minor < other.minor || (
        self.minor == other.minor && self.patch < other.patch)))
    }

    /// Whether this version is older than `other`.
    pub fn precedes(&self, other: &Version) -> (older: bool)
        ensures
            older == self.older_than(*other),
    {
        if self.major != other.major {
            self.major < other.major
        } else if self.minor != other.minor {
            self.minor < other.minor
        } else {
            self.patch < other.patch
        }
    }

    /// Reads a version: three numeric components separated by dots.
    pub fn parse(text: &str) -> (version: Option<Version>)
        ensures
            version == version_of(text@),
    {
        let chars = chars_of(text);
        let parts = split_chars(&chars, '.');
        if parts.len() != 3 {
            return None;
        }
        assert(pieces(parts@)[0] == parts@[0]@);
        assert(pieces(parts@)[1] == parts@[1]@);
        assert(pieces(parts@)[2] == parts@[2]@);
        let major = match parse_component(&parts[0]) {
            Some(v) => v,
            None => {
                return None;
            },
        };
        let minor = match parse_component(&parts[1]) {
            Some(v) => v,
            None => {
                return None;
            },
        };
        let patch = match parse_component(&parts[2]) {
            Some(v) => v,
            None => {
                return None;
            },
        };
        Some(Version { major, minor, patch })
    }

    /// Writes the version down: `major.minor.patch`.
    pub fn to_text(&self) -> (text: String)
        ensures
            text@ == version_text(self.major as nat, self.minor as nat, self.patch as nat),
    {
        render_version(self.major as u64, self.minor as u64, self.patch as u64)
    }
}

fn render_version(major: u64, minor: u64, patch: u64) -> (text: String)
    ensures
        text@ == version_text(major as nat, minor as nat, patch as nat),
{
    proof {
        reveal_strlit(".");
    }
    let mut text = String::new();
    push_decimal(&mut text, major);
    text.append(".");
    push_decimal(&mut text, minor);
    text.append(".");
    push_decimal(&mut text, patch);
    assert(text@ =~= version_text(major as nat, minor as nat, patch as nat));
    text
}

/// The version to install for a requested specifier.
pub fn resolve_target(requested: &str) -> (version: String)
    ensures
        version@ == resolved(requested@),
        requested@ == latest() ==> version@ == initial_version(),
{
    if same_text(requested, "latest") {
        owned("1.0.0")
    } else {
        owned(requested)
    }
}

/// Settles the version of `package`, recorded as `current`, given whether
/// the registry has something newer. `latest` and anything that is not a
/// version become the initial version whatever the registry says; a
/// version stays as it is written, or has its patch component raised by
/// one.
pub fn check_for_update(package: &str, current: &str, has_update: bool) -> (version: String)
    ensures
        version@ == update_target(current@, has_update),
        current@ == latest() ==> version@ == initial_version(),
        version_of(current@) is None ==> version@ == initial_version(),
{
    if same_text(current, "latest") {
        return owned("1.0.0");
    }
    match Version::parse(current) {
        None => owned("1.0.0"),
        Some(v) => {
            if has_update {
                render_version(v.major as u64, v.minor as u64, v.patch as u64 + 1)
            } else {
                owned(current)
            }
        },
    }
}

/// Whether an update check on `current` has to ask the registry: only a
/// version can be raised.
pub fn needs_registry(current: &str) -> (asks: bool)
    ensures
        asks == is_concrete(current@),
{
    if same_text(current, "latest") {
        return false;
    }
    Version::parse(current).is_some()
}

/// Where the answer comes from when an update check asks whether a
/// package has a version newer than the one recorded.
pub trait UpdateOracle {
    /// Whether the registry holds a version of `package` newer than
    /// `version`.
    fn has_update(&mut self, package: &str, version: &str) -> bool;
}

/// Answers every question the same way.
#[derive(Clone, Copy, Debug, PartialEq, Eq, Structural)]
pub struct FixedOracle {
    pub answer: bool,
}

impl UpdateOracle for FixedOracle {
    fn has_update(&mut self, package: &str, version: &str) -> (newer: bool)
        ensures
            newer == old(self).answer,
            *final(self) == *old(self),
    {
        self.answer
    }
}

/// Stands in for a registry: answers by the toss of a coin.
#[derive(Clone, Copy, Debug, PartialEq, Eq, Structural)]
pub struct RandomOracle {}

/// `rand::random::<bool>`: a flag drawn from the thread's random number
/// generator, which the operating system seeds on first use. Nothing is
/// claimed of the flag: two calls may differ.
#[verifier::external_body]
fn random_flag() -> bool {
    rand::random()
}

impl UpdateOracle for RandomOracle {
    fn has_update(&mut self, package: &str, version: &str) -> bool {
        random_flag()
    }
}

/// Settles the version of `package`, recorded as `current`, asking
/// `oracle` where the answer matters.
pub fn check_with<O: UpdateOracle>(oracle: &mut O, package: &str, current: &str) -> (version:
    String)
    ensures
        version@ == update_target(current@, true) || version@ == update_target(current@, false),
        !is_concrete(current@) ==> version@ == initial_version(),
{
    let has_update = if needs_registry(current) {
        oracle.has_update(package, current)
    } else {
        false
    };
    check_for_update(package, current, has_update)
}

/// Settles the version of `package`, recorded as `current`, with a coin
/// for a registry.
pub fn check_latest_version(package: &str, current: &str) -> (version: String)
    ensures
        version@ == update_target(current@, true) || version@ == update_target(current@, false),
        !is_concrete(current@) ==> version@ == initial_version(),
{
    let mut oracle = RandomOracle {  };
    check_with(&mut oracle, package, current)
}

} // verus!
