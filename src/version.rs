use core::cmp::Ordering;
use semver_parser::version::Identifier as ParsedIdent;
use vstd::prelude::*;

verus! {

/// One dot-separated identifier of a pre-release or build suffix.
pub enum Ident {
    Numeric(u64),
    AlphaNumeric(String),
}

/// A semantic version: `major.minor.patch[-pre][+build]`.
pub struct Version {
    pub major: u64,
    pub minor: u64,
    pub patch: u64,
    pub pre: Vec<Ident>,
    pub build: Vec<Ident>,
}

/// Mathematical model of an identifier.
pub enum IdentModel {
    Numeric(nat),
    Alpha(Seq<char>),
}

/// Mathematical model of a version.
pub struct SemVer {
    pub major: nat,
    pub minor: nat,
    pub patch: nat,
    pub pre: Seq<IdentModel>,
    pub build: Seq<IdentModel>,
}

impl View for Ident {
    type V = IdentModel;

    open spec fn view(&self) -> IdentModel {
        match self {
            Ident::Numeric(n) => IdentModel::Numeric(*n as nat),
            Ident::AlphaNumeric(s) => IdentModel::Alpha(s@),
        }
    }
}

pub open spec fn idents_view(v: Seq<Ident>) -> Seq<IdentModel> {
    v.map_values(|i: Ident| i@)
}

impl View for Version {
    type V = SemVer;

    open spec fn view(&self) -> SemVer {
        SemVer {
            major: self.major as nat,
            minor: self.minor as nat,
            patch: self.patch as nat,
            pre: idents_view(self.pre@),
            build: idents_view(self.build@),
        }
    }
}

/// What semver-parser's `version::parse` makes of a text: `None` where it
/// rejects the text.
pub uninterp spec fn semver_of(s: Seq<char>) -> Option<SemVer>;

/// Relies on semver_parser::version::parse: the parsed version, or an error
/// message; the result depends on the text alone.
#[verifier::external_body]
fn semver_parse(s: &str) -> (r: Result<Version, String>)
    ensures
        r is Ok <==> semver_of(s@) is Some,
        r is Ok ==> semver_of(s@) == Some(r->Ok_0@),
{
    let to_ident = |i: ParsedIdent| match i {
        ParsedIdent::Numeric(n) => Ident::Numeric(n),
        ParsedIdent::AlphaNumeric(a) => Ident::AlphaNumeric(a),
    };
    semver_parser::version::parse(s).map(|v| Version {
        major: v.major,
        minor: v.minor,
        patch: v.patch,
        pre: v.pre.into_iter().map(to_ident).collect(),
        build: v.build.into_iter().map(to_ident).collect(),
    })
}

/// Parses a version string; `None` where it is not a valid semantic version.
pub fn parse_version(s: &str) -> (r: Option<Version>)
    ensures
        r is Some <==> semver_of(s@) is Some,
        r is Some ==> semver_of(s@) == Some(r->Some_0@),
{
    match semver_parse(s) {
        Ok(v) => Some(v),
        Err(_) => None,
    }
}

// ----- precedence -----

pub open spec fn order_of(a: int, b: int) -> Ordering {
    if a < b {
        Ordering::Less
    } else if a > b {
        Ordering::Greater
    } else {
        Ordering::Equal
    }
}

/// Lexical order of two texts from position `i` on, character by character.
pub open spec fn text_order_from(a: Seq<char>, b: Seq<char>, i: int) -> Ordering
    decreases a.len() - i,
{
    if i < 0 || i >= a.len() {
        if i >= 0 && i < b.len() {
            Ordering::Less
        } else {
            Ordering::Equal
        }
    } else if i >= b.len() {
        Ordering::Greater
    } else if a[i] != b[i] {
        order_of(a[i] as int, b[i] as int)
    } else {
        text_order_from(a, b, i + 1)
    }
}

pub open spec fn text_order(a: Seq<char>, b: Seq<char>) -> Ordering {
    text_order_from(a, b, 0)
}

/// Identifiers: numeric ones by value, below alphanumeric ones, which go
/// lexically.
pub open spec fn ident_order(a: IdentModel, b: IdentModel) -> Ordering {
    match (a, b) {
        (IdentModel::Numeric(x), IdentModel::Numeric(y)) => order_of(x as int, y as int),
        (IdentModel::Numeric(_), IdentModel::Alpha(_)) => Ordering::Less,
        (IdentModel::Alpha(_), IdentModel::Numeric(_)) => Ordering::Greater,
        (IdentModel::Alpha(s), IdentModel::Alpha(t)) => text_order(s, t),
    }
}

/// Identifier lists from position `i` on; a proper prefix goes first.
pub open spec fn idents_order_from(a: Seq<IdentModel>, b: Seq<IdentModel>, i: int) -> Ordering
    decreases a.len() - i,
{
    if i < 0 || i >= a.len() {
        if i >= 0 && i < b.len() {
            Ordering::Less
        } else {
            Ordering::Equal
        }
    } else if i >= b.len() {
        Ordering::Greater
    } else if ident_order(a[i], b[i]) != Ordering::Equal {
        ident_order(a[i], b[i])
    } else {
        idents_order_from(a, b, i + 1)
    }
}

/// Pre-release suffixes: a version without one goes after any that has one.
pub open spec fn pre_order(a: Seq<IdentModel>, b: Seq<IdentModel>) -> Ordering {
    if a.len() == 0 && b.len() == 0 {
        Ordering::Equal
    } else if a.len() == 0 {
        Ordering::Greater
    } else if b.len() == 0 {
        Ordering::Less
    } else {
        idents_order_from(a, b, 0)
    }
}

/// Semantic-versioning precedence; build metadata plays no part.
pub open spec fn precedence(a: SemVer, b: SemVer) -> Ordering {
    if a.major != b.major {
        order_of(a.major as int, b.major as int)
    } else if a.minor != b.minor {
        order_of(a.minor as int, b.minor as int)
    } else if a.patch != b.patch {
        order_of(a.patch as int, b.patch as int)
    } else {
        pre_order(a.pre, b.pre)
    }
}

fn compare_u64(a: u64, b: u64) -> (r: Ordering)
    ensures
        r == order_of(a as int, b as int),
{
    if a < b {
        Ordering::Less
    } else if a > b {
        Ordering::Greater
    } else {
        Ordering::Equal
    }
}

/// Compares two texts character by character.
pub fn compare_text(a: &str, b: &str) -> (r: Ordering)
    ensures
        r == text_order(a@, b@),
{
    let la = a.unicode_len();
    let lb = b.unicode_len();
    let mut i: usize = 0;
    while i < la && i < lb
        invariant
            la == a@.len(),
            lb == b@.len(),
            i <= la,
            i <= lb,
            text_order(a@, b@) == text_order_from(a@, b@, i as int),
        decreases la - i,
    {
        let x = a.get_char(i);
        let y = b.get_char(i);
        if x != y {
            return compare_u64(x as u64, y as u64);
        }
        i = i + 1;
    }
    if i < lb {
        Ordering::Less
    } else if i < la {
        Ordering::Greater
    } else {
        Ordering::Equal
    }
}

pub fn compare_ident(a: &Ident, b: &Ident) -> (r: Ordering)
    ensures
        r == ident_order(a@, b@),
{
    match (a, b) {
        (Ident::Numeric(x), Ident::Numeric(y)) => compare_u64(*x, *y),
        (Ident::Numeric(_), Ident::AlphaNumeric(_)) => Ordering::Less,
        (Ident::AlphaNumeric(_), Ident::Numeric(_)) => Ordering::Greater,
        (Ident::AlphaNumeric(s), Ident::AlphaNumeric(t)) => compare_text(s.as_str(), t.as_str()),
    }
}

fn compare_idents(a: &Vec<Ident>, b: &Vec<Ident>) -> (r: Ordering)
    ensures
        r == idents_order_from(idents_view(a@), idents_view(b@), 0),
{
    let ghost va = idents_view(a@);
    let ghost vb = idents_view(b@);
    let mut i: usize = 0;
    while i < a.len() && i < b.len()
        invariant
            va == idents_view(a@),
            vb == idents_view(b@),
            va.len() == a@.len(),
            vb.len() == b@.len(),
            i <= a.len(),
            i <= b.len(),
            idents_order_from(va, vb, 0) == idents_order_from(va, vb, i as int),
        decreases a.len() - i,
    {
        let c = compare_ident(&a[i], &b[i]);
        assert(va[i as int] == a@[i as int]@);
        assert(vb[i as int] == b@[i as int]@);
        match c {
            Ordering::Equal => {},
            _ => {
                return c;
            },
        }
        i = i + 1;
    }
    if i < b.len() {
        Ordering::Less
    } else if i < a.len() {
        Ordering::Greater
    } else {
        Ordering::Equal
    }
}

impl Version {
    /// Orders two versions by semantic-versioning precedence.
    pub fn precedence_cmp(&self, other: &Version) -> (r: Ordering)
        ensures
            r == precedence(self@, other@),
    {
        if self.major != other.major {
            compare_u64(self.major, other.major)
        } else if self.minor != other.minor {
            compare_u64(self.minor, other.minor)
        } else if self.patch != other.patch {
            compare_u64(self.patch, other.patch)
        } else if self.pre.len() == 0 && other.pre.len() == 0 {
            Ordering::Equal
        } else if self.pre.len() == 0 {
            Ordering::Greater
        } else if other.pre.len() == 0 {
            Ordering::Less
        } else {
            compare_idents(&self.pre, &other.pre)
        }
    }
}


// ----- laws of precedence -----

pub open spec fn flip(o: Ordering) -> Ordering {
    match o {
        Ordering::Less => Ordering::Greater,
        Ordering::Greater => Ordering::Less,
        Ordering::Equal => Ordering::Equal,
    }
}

proof fn lemma_text_order_flip(a: Seq<char>, b: Seq<char>, i: int)
    ensures
        text_order_from(a, b, i) == flip(text_order_from(b, a, i)),
        text_order_from(a, a, i) == Ordering::Equal,
    decreases a.len() - i,
{
    if 0 <= i < a.len() {
        lemma_text_order_flip(a, b, i + 1);
    }
}

proof fn lemma_ident_order_flip(a: IdentModel, b: IdentModel)
    ensures
        ident_order(a, b) == flip(ident_order(b, a)),
        ident_order(a, a) == Ordering::Equal,
{
    match (a, b) {
        (IdentModel::Alpha(s), IdentModel::Alpha(t)) => {
            lemma_text_order_flip(s, t, 0);
        },
        (IdentModel::Alpha(s), _) => {
            lemma_text_order_flip(s, s, 0);
        },
        _ => {},
    }
}

proof fn lemma_idents_order_flip(a: Seq<IdentModel>, b: Seq<IdentModel>, i: int)
    ensures
        idents_order_from(a, b, i) == flip(idents_order_from(b, a, i)),
        idents_order_from(a, a, i) == Ordering::Equal,
    decreases a.len() - i,
{
    if 0 <= i < a.len() {
        lemma_idents_order_flip(a, b, i + 1);
        lemma_ident_order_flip(a[i], a[i]);
        if i < b.len() {
            lemma_ident_order_flip(a[i], b[i]);
        }
    }
}

/// Precedence is consistent: every version compares equal to itself, and
/// swapping the operands swaps `Less` and `Greater`.
pub proof fn lemma_precedence_antisymmetric(a: SemVer, b: SemVer)
    ensures
        precedence(a, a) == Ordering::Equal,
        precedence(a, b) == flip(precedence(b, a)),
{
    lemma_idents_order_flip(a.pre, b.pre, 0);
    lemma_idents_order_flip(a.pre, a.pre, 0);
}

// ----- canonical text -----

pub open spec fn digit_char(d: nat) -> char {
    if d == 0 { '0' } else if d == 1 { '1' } else if d == 2 { '2' } else if d == 3 { '3' }
    else if d == 4 { '4' } else if d == 5 { '5' } else if d == 6 { '6' } else if d == 7 { '7' }
    else if d == 8 { '8' } else { '9' }
}

/// Decimal digits of a number, without leading zeros.
pub open spec fn decimal(n: nat) -> Seq<char>
    decreases n,
{
    if n < 10 {
        seq![digit_char(n)]
    } else {
        decimal(n / 10).push(digit_char(n % 10))
    }
}

pub open spec fn ident_text(i: IdentModel) -> Seq<char> {
    match i {
        IdentModel::Numeric(n) => decimal(n),
        IdentModel::Alpha(s) => s,
    }
}

/// Identifiers from position `i` on, each one preceded by a dot.
pub open spec fn dotted_rest(ids: Seq<IdentModel>, i: int) -> Seq<char>
    decreases ids.len() - i,
{
    if i < 0 || i >= ids.len() {
        Seq::empty()
    } else {
        seq!['.'] + ident_text(ids[i]) + dotted_rest(ids, i + 1)
    }
}

/// A non-empty suffix: `prefix` and the identifiers joined by dots.
pub open spec fn suffix_text(prefix: char, ids: Seq<IdentModel>) -> Seq<char> {
    if ids.len() == 0 {
        Seq::empty()
    } else {
        seq![prefix] + ident_text(ids[0]) + dotted_rest(ids, 1)
    }
}

/// The canonical form `major.minor.patch[-pre][+build]`.
pub open spec fn version_text(v: SemVer) -> Seq<char> {
    decimal(v.major) + seq!['.'] + decimal(v.minor) + seq!['.'] + decimal(v.patch)
        + suffix_text('-', v.pre) + suffix_text('+', v.build)
}

fn digit_str(d: u64) -> (r: &'static str)
    requires
        d < 10,
    ensures
        r@ == seq![digit_char(d as nat)],
{
    proof {
        reveal_strlit("0");
        reveal_strlit("1");
        reveal_strlit("2");
        reveal_strlit("3");
        reveal_strlit("4");
        reveal_strlit("5");
        reveal_strlit("6");
        reveal_strlit("7");
        reveal_strlit("8");
        reveal_strlit("9");
    }
    if d == 0 { "0" } else if d == 1 { "1" } else if d == 2 { "2" } else if d == 3 { "3" }
    else if d == 4 { "4" } else if d == 5 { "5" } else if d == 6 { "6" } else if d == 7 { "7" }
    else if d == 8 { "8" } else { "9" }
}

fn push_decimal(out: &mut String, n: u64)
    ensures
        final(out)@ == old(out)@ + decimal(n as nat),
    decreases n,
{
    if n >= 10 {
        push_decimal(out, n / 10);
    }
    out.append(digit_str(n % 10));
    assert(final(out)@ =~= old(out)@ + decimal(n as nat));
}

fn push_ident(out: &mut String, i: &Ident)
    ensures
        final(out)@ == old(out)@ + ident_text(i@),
{
    match i {
        Ident::Numeric(n) => push_decimal(out, *n),
        Ident::AlphaNumeric(s) => out.append(s.as_str()),
    }
}

fn push_suffix(out: &mut String, prefix: &str, ids: &Vec<Ident>)
    requires
        prefix@.len() == 1,
    ensures
        final(out)@ == old(out)@ + suffix_text(prefix@[0], idents_view(ids@)),
{
    let ghost v = idents_view(ids@);
    let ghost start = out@;
    if ids.len() == 0 {
        assert(out@ =~= start + suffix_text(prefix@[0], v));
        return;
    }
    out.append(prefix);
    push_ident(out, &ids[0]);
    let mut i: usize = 1;
    while i < ids.len()
        invariant
            1 <= i <= ids.len(),
            v == idents_view(ids@),
            v.len() == ids@.len(),
            prefix@.len() == 1,
            start + suffix_text(prefix@[0], v) == out@ + dotted_rest(v, i as int),
        decreases ids.len() - i,
    {
        let ghost before = out@;
        out.append(".");
        push_ident(out, &ids[i]);
        proof {
            reveal_strlit(".");
            assert(v[i as int] == ids@[i as int]@);
            assert(dotted_rest(v, i as int) == seq!['.'] + ident_text(v[i as int]) + dotted_rest(
                v,
                i + 1,
            ));
            assert(out@ =~= before + seq!['.'] + ident_text(v[i as int]));
            assert(before + dotted_rest(v, i as int) =~= out@ + dotted_rest(v, i + 1));
        }
        i = i + 1;
    }
    proof {
        assert(dotted_rest(v, i as int) =~= Seq::empty());
        assert(out@ =~= out@ + dotted_rest(v, i as int));
    }
}

impl Version {
    /// Appends the canonical text of the version to `out`.
    pub fn write_text(&self, out: &mut String)
        ensures
            final(out)@ == old(out)@ + version_text(self@),
    {
        let ghost start = out@;
        proof {
            reveal_strlit(".");
            reveal_strlit("-");
            reveal_strlit("+");
        }
        push_decimal(out, self.major);
        out.append(".");
        push_decimal(out, self.minor);
        out.append(".");
        push_decimal(out, self.patch);
        push_suffix(out, "-", &self.pre);
        push_suffix(out, "+", &self.build);
        assert(out@ =~= start + version_text(self@));
    }

    /// The canonical text `major.minor.patch[-pre][+build]`.
    pub fn to_text(&self) -> (r: String)
        ensures
            r@ == version_text(self@),
    {
        let mut s = String::new();
        self.write_text(&mut s);
        assert(s@ =~= version_text(self@));
        s
    }
}

} // verus!
