//! Application version numbers and Wolfram Language version numbers.

use vstd::prelude::*;

use crate::error::Error;
use crate::text::{
    digit_value, free_of, is_digit, lemma_split_on_extend, lemma_split_on_single, parse_u32,
    parse_u32_spec, scan_digits, split, split_on, IntError,
};

verus! {

/// Wolfram application version number.
///
/// The major, minor, and revision components of most Wolfram applications are
/// the same as the version of the Wolfram Language they provide.
#[derive(Debug, Clone, Copy, PartialEq, Eq, Structural)]
pub struct AppVersion {
    pub major: u32,
    pub minor: u32,
    pub revision: u32,
    pub minor_revision: Option<u32>,
    pub build_code: Option<u32>,
}

/// Wolfram Language version number.
#[derive(Debug, Clone, Copy, PartialEq, Eq, Structural, Ord)]
pub struct WolframVersion {
    pub major: u32,
    pub minor: u32,
    pub patch: u32,
}

/// Lexicographic order on (major, minor, patch).
pub open spec fn version_cmp(a: WolframVersion, b: WolframVersion) -> core::cmp::Ordering {
    if a.major < b.major {
        core::cmp::Ordering::Less
    } else if a.major > b.major {
        core::cmp::Ordering::Greater
    } else if a.minor < b.minor {
        core::cmp::Ordering::Less
    } else if a.minor > b.minor {
        core::cmp::Ordering::Greater
    } else if a.patch < b.patch {
        core::cmp::Ordering::Less
    } else if a.patch > b.patch {
        core::cmp::Ordering::Greater
    } else {
        core::cmp::Ordering::Equal
    }
}

/// `a` is an older version than `b`.
pub open spec fn version_lt(a: WolframVersion, b: WolframVersion) -> bool {
    version_cmp(a, b) == core::cmp::Ordering::Less
}

impl PartialOrd for WolframVersion {
    fn partial_cmp(&self, other: &WolframVersion) -> (r: Option<core::cmp::Ordering>)
        ensures
            r == Some(version_cmp(*self, *other)),
    {
        Some(compare_versions(self, other))
    }
}

impl vstd::std_specs::cmp::PartialOrdSpecImpl for WolframVersion {
    open spec fn obeys_partial_cmp_spec() -> bool {
        true
    }

    open spec fn partial_cmp_spec(&self, other: &WolframVersion) -> Option<core::cmp::Ordering> {
        Some(version_cmp(*self, *other))
    }
}

/// Compares two Wolfram Language versions by (major, minor, patch).
pub fn compare_versions(a: &WolframVersion, b: &WolframVersion) -> (r: core::cmp::Ordering)
    ensures
        r == version_cmp(*a, *b),
{
    if a.major < b.major {
        core::cmp::Ordering::Less
    } else if a.major > b.major {
        core::cmp::Ordering::Greater
    } else if a.minor < b.minor {
        core::cmp::Ordering::Less
    } else if a.minor > b.minor {
        core::cmp::Ordering::Greater
    } else if a.patch < b.patch {
        core::cmp::Ordering::Less
    } else if a.patch > b.patch {
        core::cmp::Ordering::Greater
    } else {
        core::cmp::Ordering::Equal
    }
}

/// The order on Wolfram Language versions is a total order: it is reflexive,
/// antisymmetric, transitive, and any two versions compare one way or the
/// other.
pub proof fn lemma_version_order_total(a: WolframVersion, b: WolframVersion, c: WolframVersion)
    ensures
        version_cmp(a, a) == core::cmp::Ordering::Equal,
        version_cmp(a, b) == core::cmp::Ordering::Equal <==> a == b,
        version_lt(a, b) <==> version_cmp(b, a) == core::cmp::Ordering::Greater,
        version_lt(a, b) || a == b || version_lt(b, a),
        version_lt(a, b) && version_lt(b, c) ==> version_lt(a, c),
        !version_lt(a, b) && !version_lt(b, c) ==> !version_lt(a, c),
{
}

impl WolframVersion {
    /// Constructs a new [`WolframVersion`].
    pub fn new(major: u32, minor: u32, patch: u32) -> (r: Self)
        ensures
            r.major == major,
            r.minor == minor,
            r.patch == patch,
    {
        WolframVersion { major, minor, patch }
    }

    /// First component of `$VersionNumber`.
    pub fn major(&self) -> (r: u32)
        ensures
            r == self.major,
    {
        self.major
    }

    /// Second component of `$VersionNumber`.
    pub fn minor(&self) -> (r: u32)
        ensures
            r == self.minor,
    {
        self.minor
    }

    /// `$ReleaseNumber`.
    pub fn patch(&self) -> (r: u32)
        ensures
            r == self.patch,
    {
        self.patch
    }

    /// The version in `major.minor.patch` form.
    pub fn to_text(&self) -> (r: String)
        ensures
            r@ == decimal(self.major as nat) + "."@ + decimal(self.minor as nat) + "."@ + decimal(
                self.patch as nat,
            ),
    {
        let mut s = render_u32(self.major);
        s.append(".");
        let minor = render_u32(self.minor);
        s.append(minor.as_str());
        s.append(".");
        let patch = render_u32(self.patch);
        s.append(patch.as_str());
        proof {
            reveal_strlit(".");
        }
        s
    }
}

/// The decimal digits of `n`, without leading zeros (`"0"` for zero).
pub open spec fn decimal(n: nat) -> Seq<char>
    decreases n,
{
    if n < 10 {
        seq![digit_char(n)]
    } else {
        decimal(n / 10).push(digit_char(n % 10))
    }
}

pub open spec fn digit_char(d: nat) -> char {
    if d == 0 {
        '0'
    } else if d == 1 {
        '1'
    } else if d == 2 {
        '2'
    } else if d == 3 {
        '3'
    } else if d == 4 {
        '4'
    } else if d == 5 {
        '5'
    } else if d == 6 {
        '6'
    } else if d == 7 {
        '7'
    } else if d == 8 {
        '8'
    } else {
        '9'
    }
}

fn digit_str(d: u32) -> (r: &'static str)
    requires
        d < 10,
    ensures
        r@ == seq![digit_char(d as nat)],
{
    proof {
        reveal_strlit("0");
        reveal_strlit("1");
        reveal_strlit("2");
        reveal_strlit("3");
        reveal_strlit("4");
        reveal_strlit("5");
        reveal_strlit("6");
        reveal_strlit("7");
        reveal_strlit("8");
        reveal_strlit("9");
    }
    let r = if d == 0 {
        "0"
    } else if d == 1 {
        "1"
    } else if d == 2 {
        "2"
    } else if d == 3 {
        "3"
    } else if d == 4 {
        "4"
    } else if d == 5 {
        "5"
    } else if d == 6 {
        "6"
    } else if d == 7 {
        "7"
    } else if d == 8 {
        "8"
    } else {
        "9"
    };
    assert(r@ =~= seq![digit_char(d as nat)]);
    r
}

/// Writes `n` in decimal.
pub fn render_u32(n: u32) -> (r: String)
    ensures
        r@ == decimal(n as nat),
    decreases n,
{
    if n < 10 {
        String::from_str(digit_str(n))
    } else {
        let mut s = render_u32(n / 10);
        s.append(digit_str(n % 10));
        s
    }
}

/// The version text accepted by [`AppVersion::parse`]: three, four or five
/// dot-separated decimal numbers; `None` where it is malformed.
///
/// With four components the last is the build code, which is left out when
/// it is all digits but too large for a `u32`; with five, the fourth is the minor revision
/// and the fifth the build code.
pub open spec fn app_version_of(s: Seq<char>) -> Option<AppVersion> {
    let p = split_on(s, '.');
    if p.len() == 3 {
        if parse_u32_spec(p[0]) is Ok && parse_u32_spec(p[1]) is Ok && parse_u32_spec(p[2]) is Ok {
            Some(
                AppVersion {
                    major: parse_u32_spec(p[0])->Ok_0,
                    minor: parse_u32_spec(p[1])->Ok_0,
                    revision: parse_u32_spec(p[2])->Ok_0,
                    minor_revision: None,
                    build_code: None,
                },
            )
        } else {
            None
        }
    } else if p.len() == 4 {
        if parse_u32_spec(p[0]) is Ok && parse_u32_spec(p[1]) is Ok && parse_u32_spec(p[2]) is Ok
            && (parse_u32_spec(p[3]) is Ok || (all_digits(p[3]) && parse_u32_spec(p[3]) == Err::<
            u32,
            IntError,
        >(IntError::PosOverflow))) {
            Some(
                AppVersion {
                    major: parse_u32_spec(p[0])->Ok_0,
                    minor: parse_u32_spec(p[1])->Ok_0,
                    revision: parse_u32_spec(p[2])->Ok_0,
                    minor_revision: None,
                    build_code: match parse_u32_spec(p[3]) {
                        Ok(code) => Some(code),
                        Err(_) => None,
                    },
                },
            )
        } else {
            None
        }
    } else if p.len() == 5 {
        if parse_u32_spec(p[0]) is Ok && parse_u32_spec(p[1]) is Ok && parse_u32_spec(p[2]) is Ok
            && parse_u32_spec(p[3]) is Ok && parse_u32_spec(p[4]) is Ok {
            Some(
                AppVersion {
                    major: parse_u32_spec(p[0])->Ok_0,
                    minor: parse_u32_spec(p[1])->Ok_0,
                    revision: parse_u32_spec(p[2])->Ok_0,
                    minor_revision: Some(parse_u32_spec(p[3])->Ok_0),
                    build_code: Some(parse_u32_spec(p[4])->Ok_0),
                },
            )
        } else {
            None
        }
    } else {
        None
    }
}

/// The value of a text of decimal digits, read right to left.
pub open spec fn digits_value(s: Seq<char>) -> nat
    decreases s.len(),
{
    if s.len() == 0 {
        0
    } else {
        digits_value(s.drop_last()) * 10 + digit_value(s.last())
    }
}

/// Every character of `s` is a decimal digit.
pub open spec fn all_digits(s: Seq<char>) -> bool {
    forall|i: int| 0 <= i < s.len() ==> is_digit(#[trigger] s[i])
}

proof fn lemma_digit_char(d: nat)
    requires
        d < 10,
    ensures
        is_digit(digit_char(d)),
        digit_value(digit_char(d)) == d,
        digit_char(d) != '.',
{
}

proof fn lemma_decimal_digits(n: nat)
    ensures
        decimal(n).len() >= 1,
        all_digits(decimal(n)),
        free_of(decimal(n), '.'),
        digits_value(decimal(n)) == n,
    decreases n,
{
    if n < 10 {
        lemma_digit_char(n);
        assert(decimal(n).drop_last() =~= Seq::<char>::empty());
        assert(decimal(n).last() == digit_char(n));
        assert(digits_value(decimal(n)) == digits_value(Seq::<char>::empty()) * 10 + digit_value(digit_char(n)));
    } else {
        lemma_decimal_digits(n / 10);
        lemma_digit_char(n % 10);
        let d = decimal(n);
        assert(d.drop_last() =~= decimal(n / 10));
        assert(all_digits(d)) by {
            assert forall|i: int| 0 <= i < d.len() implies is_digit(#[trigger] d[i]) by {
                if i < d.len() - 1 {
                    assert(d[i] == decimal(n / 10)[i]);
                }
            }
        }
        assert(free_of(d, '.')) by {
            assert forall|i: int| 0 <= i < d.len() implies d[i] != '.' by {
                if i < d.len() - 1 {
                    assert(d[i] == decimal(n / 10)[i]);
                }
            }
        }
        vstd::arithmetic::div_mod::lemma_fundamental_div_mod(n as int, 10);
        assert(d.last() == digit_char(n % 10));
        assert(digits_value(d) == digits_value(decimal(n / 10)) * 10 + digit_value(digit_char(n % 10)));
    }
}

proof fn lemma_prefix_value_bounded(s: Seq<char>, j: int)
    requires
        0 <= j <= s.len(),
    ensures
        digits_value(s.take(j)) <= digits_value(s),
    decreases s.len(),
{
    if j < s.len() {
        lemma_prefix_value_bounded(s.drop_last(), j);
        assert(s.drop_last().take(j) =~= s.take(j));
    } else {
        assert(s.take(j) =~= s);
    }
}

proof fn lemma_scan_reads_value(s: Seq<char>, i: int)
    requires
        0 <= i <= s.len(),
        all_digits(s),
        digits_value(s) <= u32::MAX,
    ensures
        scan_digits(s, i, digits_value(s.take(i))) == Ok::<nat, IntError>(digits_value(s)),
    decreases s.len() - i,
{
    if i == s.len() {
        assert(s.take(i) =~= s);
    } else {
        assert(s.take(i + 1).drop_last() =~= s.take(i));
        assert(s.take(i + 1).last() == s[i]);
        lemma_prefix_value_bounded(s, i + 1);
        lemma_scan_reads_value(s, i + 1);
    }
}

/// Decimal text reads back as the number it writes.
pub proof fn lemma_decimal_parses(n: u32)
    ensures
        parse_u32_spec(decimal(n as nat)) == Ok::<u32, IntError>(n),
{
    let d = decimal(n as nat);
    lemma_decimal_digits(n as nat);
    assert(d.take(0) =~= Seq::<char>::empty());
    lemma_scan_reads_value(d, 0);
    assert(is_digit(d[0]));
}

/// The dot-separated decimal text of a list of numbers.
pub open spec fn dotted(parts: Seq<u32>) -> Seq<char>
    decreases parts.len(),
{
    if parts.len() <= 1 {
        if parts.len() == 1 {
            decimal(parts[0] as nat)
        } else {
            Seq::empty()
        }
    } else {
        dotted(parts.drop_last()) + seq!['.'] + decimal(parts.last() as nat)
    }
}

proof fn lemma_split_dotted(parts: Seq<u32>)
    requires
        parts.len() >= 1,
    ensures
        split_on(dotted(parts), '.') == parts.map_values(|n: u32| decimal(n as nat)),
    decreases parts.len(),
{
    lemma_decimal_digits(parts.last() as nat);
    if parts.len() == 1 {
        lemma_split_on_single(decimal(parts[0] as nat), '.');
        assert(parts.map_values(|n: u32| decimal(n as nat)) =~= seq![decimal(parts[0] as nat)]);
    } else {
        lemma_split_dotted(parts.drop_last());
        lemma_split_on_extend(dotted(parts.drop_last()), '.', decimal(parts.last() as nat));
        assert(parts.map_values(|n: u32| decimal(n as nat)) =~= parts.drop_last().map_values(
            |n: u32| decimal(n as nat),
        ).push(decimal(parts.last() as nat)));
    }
}

/// Writing three, four or five numbers with dots between them and parsing
/// the text gives back the first three as major, minor and revision, and the
/// others as the minor revision and build code their count calls for.
pub proof fn lemma_parse_round_trip(parts: Seq<u32>)
    requires
        3 <= parts.len() <= 5,
    ensures
        app_version_of(dotted(parts)) is Some,
        app_version_of(dotted(parts))->Some_0.major == parts[0],
        app_version_of(dotted(parts))->Some_0.minor == parts[1],
        app_version_of(dotted(parts))->Some_0.revision == parts[2],
        parts.len() == 4 ==> app_version_of(dotted(parts))->Some_0.build_code == Some(parts[3]),
        parts.len() == 5 ==> app_version_of(dotted(parts))->Some_0.minor_revision == Some(parts[3])
            && app_version_of(dotted(parts))->Some_0.build_code == Some(parts[4]),
{
    lemma_split_dotted(parts);
    let p = split_on(dotted(parts), '.');
    assert forall|i: int| 0 <= i < parts.len() implies parse_u32_spec(#[trigger] p[i]) == Ok::<u32, IntError>(
        parts[i],
    ) by {
        lemma_decimal_parses(parts[i]);
    }
}

/// Text whose dot-separated pieces are not three, four or five, or whose
/// first three pieces are not all numbers, is never a version.
pub proof fn lemma_parse_rejects_malformed(s: Seq<char>)
    requires
        ({
            let p = split_on(s, '.');
            (p.len() < 3 || p.len() > 5) || !(parse_u32_spec(p[0]) is Ok && parse_u32_spec(p[1]) is Ok
                && parse_u32_spec(p[2]) is Ok)
        }),
    ensures
        app_version_of(s) is None,
{
}

/// Whether every character of `s` is a decimal digit.
fn is_all_digits(s: &str) -> (r: bool)
    ensures
        r == all_digits(s@),
{
    let n = s.unicode_len();
    let mut i: usize = 0;
    while i < n
        invariant
            n == s@.len(),
            i <= n,
            forall|j: int| 0 <= j < i ==> is_digit(#[trigger] s@[j]),
        decreases n - i,
    {
        let c = s.get_char(i);
        if !('0' <= c && c <= '9') {
            return false;
        }
        i = i + 1;
    }
    true
}

/// The message of a failure to read `text` as a version component.
fn component_error(text: &str, err: IntError) -> (r: Error)
    ensures
        r.kind is Other,
{
    let mut message = String::from_str("invalid application version number component: '");
    message.append(text);
    message.append("': ");
    message.append(int_error_text(err));
    Error::other(message)
}

/// The text with which std describes each reason a number did not parse.
pub fn int_error_text(err: IntError) -> (r: &'static str) {
    match err {
        IntError::Empty => "cannot parse integer from empty string",
        IntError::InvalidDigit => "invalid digit found in string",
        IntError::PosOverflow => "number too large to fit in target type",
    }
}

fn component(text: &String) -> (r: Result<u32, Error>)
    ensures
        parse_u32_spec(text@) is Ok <==> r is Ok,
        r is Ok ==> r->Ok_0 == parse_u32_spec(text@)->Ok_0,
        r is Err ==> r->Err_0.kind is Other,
{
    match parse_u32(text.as_str()) {
        Ok(v) => Ok(v),
        Err(e) => Err(component_error(text.as_str(), e)),
    }
}

impl AppVersion {
    /// The major version number.
    pub fn major(&self) -> (r: u32)
        ensures
            r == self.major,
    {
        self.major
    }

    /// The minor version number.
    pub fn minor(&self) -> (r: u32)
        ensures
            r == self.minor,
    {
        self.minor
    }

    /// The revision number.
    pub fn revision(&self) -> (r: u32)
        ensures
            r == self.revision,
    {
        self.revision
    }

    /// The minor revision number, where the version has one.
    pub fn minor_revision(&self) -> (r: Option<u32>)
        ensures
            r == self.minor_revision,
    {
        self.minor_revision
    }

    /// The build code, where the version has one.
    pub fn build_code(&self) -> (r: Option<u32>)
        ensures
            r == self.build_code,
    {
        self.build_code
    }

    /// Parses an application version string of three, four or five
    /// dot-separated numbers (see [`app_version_of`]).
    pub fn parse(version: &str) -> (r: Result<AppVersion, Error>)
        ensures
            r is Ok <==> app_version_of(version@) is Some,
            r is Ok ==> r->Ok_0 == app_version_of(version@)->Some_0,
            r is Err ==> r->Err_0.kind is Other,
    {
        let parts = split(version, '.');
        let ghost p = split_on(version@, '.');
        assert(parts@.len() == p.len());
        assert(forall|i: int| 0 <= i < p.len() ==> parts@[i]@ == p[i]);
        if parts.len() == 5 {
            let major = component(&parts[0])?;
            let minor = component(&parts[1])?;
            let revision = component(&parts[2])?;
            let minor_revision = component(&parts[3])?;
            let build_code = component(&parts[4])?;
            Ok(
                AppVersion {
                    major,
                    minor,
                    revision,
                    minor_revision: Some(minor_revision),
                    build_code: Some(build_code),
                },
            )
        } else if parts.len() == 4 {
            let major = component(&parts[0])?;
            let minor = component(&parts[1])?;
            let revision = component(&parts[2])?;
            let build_code = match parse_u32(parts[3].as_str()) {
                Ok(code) => Some(code),
                Err(IntError::PosOverflow) => {
                    if !is_all_digits(parts[3].as_str()) {
                        return Err(component_error(parts[3].as_str(), IntError::InvalidDigit));
                    }
                    None
                },
                Err(other) => {
                    return Err(component_error(parts[3].as_str(), other));
                },
            };
            Ok(AppVersion { major, minor, revision, minor_revision: None, build_code })
        } else if parts.len() == 3 {
            let major = component(&parts[0])?;
            let minor = component(&parts[1])?;
            let revision = component(&parts[2])?;
            Ok(AppVersion { major, minor, revision, minor_revision: None, build_code: None })
        } else {
            let mut message = String::from_str("unexpected application version number format: ");
            message.append(version);
            Err(Error::other(message))
        }
    }
}

} // verus!
