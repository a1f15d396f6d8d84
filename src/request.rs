//! Resize requests: the path grammar `/<width>x<height>/<image key>`, the
//! optional allow-list of resolutions, and the storage key of a derivative.

use vstd::prelude::*;
use crate::decimal::{
    all_digits, decimal, digits_value, is_digit, lemma_decimal,
    lemma_digits_value_prefix, push_decimal,
};

verus! {

/// A target size in pixels.
#[derive(Clone, Copy, Debug, PartialEq, Eq, Structural)]
pub struct Resolution {
    pub width: u16,
    pub height: u16,
}

/// A parsed request: which stored image, and the size wanted.
#[derive(Debug)]
pub struct ImageResizeRequest {
    pub image_key: String,
    pub resolution: Resolution,
}

/// What a request is, as plain values.
pub struct RequestView {
    pub image_key: Seq<char>,
    pub resolution: Resolution,
}

impl View for ImageResizeRequest {
    type V = RequestView;

    open spec fn view(&self) -> RequestView {
        RequestView { image_key: self.image_key@, resolution: self.resolution }
    }
}

impl PartialEq for ImageResizeRequest {
    fn eq(&self, other: &ImageResizeRequest) -> (r: bool)
        ensures
            r == (self@ == other@),
    {
        self.resolution == other.resolution && self.image_key == other.image_key
    }
}

impl Eq for ImageResizeRequest {

}

impl vstd::std_specs::cmp::PartialEqSpecImpl for ImageResizeRequest {
    open spec fn obeys_eq_spec() -> bool {
        true
    }

    open spec fn eq_spec(&self, other: &ImageResizeRequest) -> bool {
        self@ == other@
    }
}

/// Why a path was not accepted as a resize request.
#[derive(Clone, Copy, Debug, PartialEq, Eq, Structural)]
pub enum ParseError {
    /// No `/<digits>x<digits>/` segment in the path.
    Malformed,
    /// A dimension does not fit in 16 bits.
    DimensionOutOfRange,
    /// Nothing follows the resolution segment.
    EmptyKey,
    /// The resolution is not on the configured allow-list.
    UnsupportedResolution,
}

/// Length of the run of digits in `s` that starts at `i`.
pub open spec fn digit_run(s: Seq<char>, i: int) -> nat
    decreases s.len() - i,
{
    if 0 <= i < s.len() && is_digit(s[i]) {
        1 + digit_run(s, i + 1)
    } else {
        0
    }
}

/// Index of the `x` in a marker that starts at `i`.
pub open spec fn x_index(s: Seq<char>, i: int) -> int {
    i + 1 + digit_run(s, i + 1)
}

/// Index of the closing `/` in a marker that starts at `i`.
pub open spec fn slash_index(s: Seq<char>, i: int) -> int {
    x_index(s, i) + 1 + digit_run(s, x_index(s, i) + 1)
}

/// `s` holds `/<digits>x<digits>/` at `i`.
pub open spec fn marker_at(s: Seq<char>, i: int) -> bool {
    &&& 0 <= i
    &&& slash_index(s, i) < s.len()
    &&& s[i] == '/'
    &&& digit_run(s, i + 1) > 0
    &&& s[x_index(s, i)] == 'x'
    &&& digit_run(s, x_index(s, i) + 1) > 0
    &&& s[slash_index(s, i)] == '/'
}

/// The first marker at or after `i`.
pub open spec fn first_marker_from(s: Seq<char>, i: nat) -> Option<int>
    decreases s.len() - i,
{
    if i >= s.len() {
        None
    } else if marker_at(s, i as int) {
        Some(i as int)
    } else {
        first_marker_from(s, i + 1)
    }
}

pub open spec fn first_marker(s: Seq<char>) -> Option<int> {
    first_marker_from(s, 0)
}

/// The allow-list admits `r`: none is configured, it is empty, or it holds `r`.
pub open spec fn permitted(allowed: Option<Seq<Resolution>>, r: Resolution) -> bool {
    match allowed {
        None => true,
        Some(l) => l.len() == 0 || l.contains(r),
    }
}

pub open spec fn allowed_view(allowed: &Option<Vec<Resolution>>) -> Option<Seq<Resolution>> {
    match allowed {
        None => None,
        Some(v) => Some(v@),
    }
}

/// What parsing `s` yields, given the allow-list.
pub open spec fn parse_outcome(s: Seq<char>, allowed: Option<Seq<Resolution>>) -> Result<
    RequestView,
    ParseError,
> {
    match first_marker(s) {
        None => Err(ParseError::Malformed),
        Some(i) => {
            let w = digits_value(s.subrange(i + 1, x_index(s, i)));
            let h = digits_value(s.subrange(x_index(s, i) + 1, slash_index(s, i)));
            let key = s.subrange(slash_index(s, i) + 1, s.len() as int);
            let r = Resolution { width: w as u16, height: h as u16 };
            if w > u16::MAX || h > u16::MAX {
                Err(ParseError::DimensionOutOfRange)
            } else if key.len() == 0 {
                Err(ParseError::EmptyKey)
            } else if !permitted(allowed, r) {
                Err(ParseError::UnsupportedResolution)
            } else {
                Ok(RequestView { image_key: key, resolution: r })
            }
        },
    }
}

pub open spec fn outcome_view(r: Result<ImageResizeRequest, ParseError>) -> Result<
    RequestView,
    ParseError,
> {
    match r {
        Ok(q) => Ok(q@),
        Err(e) => Err(e),
    }
}

/// The storage key of a derivative: `{width}x{height}/{image key}`.
pub open spec fn storage_key(r: Resolution, key: Seq<char>) -> Seq<char> {
    decimal(r.width as nat) + seq!['x'] + decimal(r.height as nat) + seq!['/'] + key
}

fn is_digit_char(c: char) -> (r: bool)
    ensures
        r == is_digit(c),
{
    let u = c as u32;
    48 <= u && u <= 57
}

/// Length of the digit run of `s` at `i`.
fn scan_digits(s: &str, n: usize, i: usize) -> (r: usize)
    requires
        n == s@.len(),
        i <= n,
    ensures
        r == digit_run(s@, i as int),
        i + r <= n,
{
    let mut j: usize = i;
    while j < n && is_digit_char(s.get_char(j))
        invariant
            n == s@.len(),
            i <= j <= n,
            digit_run(s@, i as int) == (j - i) + digit_run(s@, j as int),
        decreases n - j,
    {
        j = j + 1;
    }
    j - i
}

/// Whether a marker starts at `i`, and if so where its `x` and closing `/` are.
fn scan_marker(s: &str, n: usize, i: usize) -> (r: Option<(usize, usize)>)
    requires
        n == s@.len(),
        i < n,
    ensures
        r is Some <==> marker_at(s@, i as int),
        r matches Some((x, e)) ==> x == x_index(s@, i as int) && e == slash_index(s@, i as int),
{
    if s.get_char(i) != '/' {
        return None;
    }
    let a = scan_digits(s, n, i + 1);
    let x = i + 1 + a;
    if a == 0 || x >= n || s.get_char(x) != 'x' {
        return None;
    }
    let b = scan_digits(s, n, x + 1);
    let e = x + 1 + b;
    if b == 0 || e >= n || s.get_char(e) != '/' {
        return None;
    }
    Some((x, e))
}

/// The value of the digits `s[from..to]`, or `None` when it exceeds `u16::MAX`.
fn parse_u16(s: &str, n: usize, from: usize, to: usize) -> (r: Option<u16>)
    requires
        n == s@.len(),
        from <= to <= n,
        all_digits(s@.subrange(from as int, to as int)),
    ensures
        match r {
            Some(v) => v == digits_value(s@.subrange(from as int, to as int)),
            None => digits_value(s@.subrange(from as int, to as int)) > u16::MAX,
        },
{
    let ghost d = s@.subrange(from as int, to as int);
    let mut acc: u32 = 0;
    let mut j: usize = from;
    while j < to
        invariant
            n == s@.len(),
            from <= j <= to <= n,
            d == s@.subrange(from as int, to as int),
            all_digits(d),
            acc <= u16::MAX,
            acc == digits_value(d.subrange(0, j - from)),
        decreases to - j,
    {
        let c = s.get_char(j);
        proof {
            assert(d[j - from] == c);
            assert(d.subrange(0, j - from + 1).drop_last() =~= d.subrange(0, j - from));
        }
        acc = acc * 10 + (c as u32 - 48);
        j = j + 1;
        if acc > 65535 {
            proof {
                lemma_digits_value_prefix(d, j - from);
            }
            return None;
        }
    }
    proof {
        assert(d.subrange(0, j - from) =~= d);
    }
    Some(acc as u16)
}

proof fn lemma_run_digits(s: Seq<char>, i: int)
    requires
        0 <= i <= s.len(),
    ensures
        i + digit_run(s, i) <= s.len(),
        all_digits(s.subrange(i, i + digit_run(s, i))),
    decreases s.len() - i,
{
    if 0 <= i < s.len() && is_digit(s[i]) {
        lemma_run_digits(s, i + 1);
        let t = s.subrange(i, i + digit_run(s, i));
        assert forall|k: int| 0 <= k < t.len() implies is_digit(#[trigger] t[k]) by {
            if k > 0 {
                assert(t[k] == s.subrange(i + 1, i + 1 + digit_run(s, i + 1))[k - 1]);
            }
        }
    } else {
        assert(s.subrange(i, i + digit_run(s, i)).len() == 0);
    }
}

/// Finds the first marker of `s`, scanning from the left.
fn find_marker(s: &str, n: usize) -> (r: Option<(usize, usize, usize)>)
    requires
        n == s@.len(),
    ensures
        match r {
            None => first_marker(s@) is None,
            Some((i, x, e)) => first_marker(s@) == Some(i as int) && marker_at(s@, i as int)
                && x == x_index(s@, i as int)
                && e == slash_index(s@, i as int),
        },
{
    let mut i: usize = 0;
    while i < n
        invariant
            n == s@.len(),
            i <= n,
            first_marker(s@) == first_marker_from(s@, i as nat),
        decreases n - i,
    {
        match scan_marker(s, n, i) {
            Some((x, e)) => {
                return Some((i, x, e));
            },
            None => {},
        }
        i = i + 1;
    }
    None
}

/// Whether `r` is admitted by the allow-list.
pub fn is_permitted(allowed: &Option<Vec<Resolution>>, r: Resolution) -> (b: bool)
    ensures
        b == permitted(allowed_view(allowed), r),
{
    match allowed {
        None => true,
        Some(list) => {
            if list.len() == 0 {
                return true;
            }
            let mut k: usize = 0;
            while k < list.len()
                invariant
                    allowed_view(allowed) == Some(list@),
                    k <= list@.len(),
                    forall|m: int| 0 <= m < k ==> list@[m] != r,
                decreases list@.len() - k,
            {
                if list[k] == r {
                    proof {
                        assert(list@[k as int] == r);
                    }
                    return true;
                }
                k = k + 1;
            }
            false
        },
    }
}

impl ImageResizeRequest {
    /// Parses a request path of the form `/<width>x<height>/<image key>`.
    ///
    /// The first `/<digits>x<digits>/` in the path anchors the match; what
    /// precedes it is ignored and all that follows is the image key, verbatim.
    /// A non-empty allow-list must hold the resolution.
    pub fn parse(path: &str, allowed: &Option<Vec<Resolution>>) -> (r: Result<
        ImageResizeRequest,
        ParseError,
    >)
        ensures
            outcome_view(r) == parse_outcome(path@, allowed_view(allowed)),
    {
        let n = path.unicode_len();
        let (i, x, e) = match find_marker(path, n) {
            None => {
                return Err(ParseError::Malformed);
            },
            Some(found) => found,
        };
        proof {
            lemma_run_digits(path@, i + 1);
            lemma_run_digits(path@, x + 1);
        }
        let width = match parse_u16(path, n, i + 1, x) {
            None => {
                return Err(ParseError::DimensionOutOfRange);
            },
            Some(v) => v,
        };
        let height = match parse_u16(path, n, x + 1, e) {
            None => {
                return Err(ParseError::DimensionOutOfRange);
            },
            Some(v) => v,
        };
        if e + 1 == n {
            return Err(ParseError::EmptyKey);
        }
        let resolution = Resolution { width, height };
        if !is_permitted(allowed, resolution) {
            return Err(ParseError::UnsupportedResolution);
        }
        let image_key = path.substring_char(e + 1, n).to_owned();
        Ok(ImageResizeRequest { image_key, resolution })
    }
}

/// Relies on `String`'s `FromIterator<char>`: the string holds the
/// characters in order.
#[verifier::external_body]
fn string_from_chars(v: &Vec<char>) -> (r: String)
    ensures
        r@ == v@,
{
    v.iter().collect()
}

/// Appends the characters of `s` to `out`.
fn push_str_chars(out: &mut Vec<char>, s: &str)
    ensures
        final(out)@ == old(out)@ + s@,
{
    let n = s.unicode_len();
    let mut k: usize = 0;
    while k < n
        invariant
            n == s@.len(),
            k <= n,
            out@ == old(out)@ + s@.subrange(0, k as int),
        decreases n - k,
    {
        let c = s.get_char(k);
        out.push(c);
        k = k + 1;
        proof {
            assert(s@.subrange(0, k as int) =~= s@.subrange(0, k - 1).push(c));
        }
    }
    proof {
        assert(s@.subrange(0, n as int) =~= s@);
    }
}

/// The key under which the derivative of `image_key` at `resolution` is
/// stored: `{width}x{height}/{image_key}`.
pub fn derived_key(resolution: Resolution, image_key: &str) -> (r: String)
    ensures
        r@ == storage_key(resolution, image_key@),
{
    let mut out: Vec<char> = Vec::new();
    push_decimal(&mut out, resolution.width as u32);
    out.push('x');
    push_decimal(&mut out, resolution.height as u32);
    out.push('/');
    push_str_chars(&mut out, image_key);
    proof {
        assert(out@ =~= storage_key(resolution, image_key@));
    }
    string_from_chars(&out)
}

/// The text that describes a request: `requested {key} with {width}x{height}`.
pub open spec fn description(q: RequestView) -> Seq<char> {
    seq!['r', 'e', 'q', 'u', 'e', 's', 't', 'e', 'd', ' '] + q.image_key + seq![
        ' ',
        'w',
        'i',
        't',
        'h',
        ' ',
    ] + decimal(q.resolution.width as nat) + seq!['x'] + decimal(q.resolution.height as nat)
}

impl ImageResizeRequest {
    /// The key of the derivative that this request produces.
    pub fn storage_key(&self) -> (r: String)
        ensures
            r@ == storage_key(self.resolution, self.image_key@),
    {
        derived_key(self.resolution, self.image_key.as_str())
    }

    /// A one-line description of the request, for logs.
    pub fn describe(&self) -> (r: String)
        ensures
            r@ == description(self@),
    {
        let mut out: Vec<char> = Vec::new();
        out.push('r');
        out.push('e');
        out.push('q');
        out.push('u');
        out.push('e');
        out.push('s');
        out.push('t');
        out.push('e');
        out.push('d');
        out.push(' ');
        push_str_chars(&mut out, self.image_key.as_str());
        out.push(' ');
        out.push('w');
        out.push('i');
        out.push('t');
        out.push('h');
        out.push(' ');
        push_decimal(&mut out, self.resolution.width as u32);
        out.push('x');
        push_decimal(&mut out, self.resolution.height as u32);
        proof {
            assert(out@ =~= description(self@));
        }
        string_from_chars(&out)
    }
}

/// The path `/<width digits>x<height digits>/<key>`.
pub open spec fn request_path(wd: Seq<char>, hd: Seq<char>, key: Seq<char>) -> Seq<char> {
    seq!['/'] + wd + seq!['x'] + hd + seq!['/'] + key
}

proof fn lemma_digit_run_exact(s: Seq<char>, i: int, len: nat)
    requires
        0 <= i,
        i + len < s.len(),
        forall|k: int| i <= k < i + len ==> is_digit(#[trigger] s[k]),
        !is_digit(s[i + len]),
    ensures
        digit_run(s, i) == len,
    decreases len,
{
    if len > 0 {
        lemma_digit_run_exact(s, i + 1, (len - 1) as nat);
    }
}

proof fn lemma_parse_request_path(
    wd: Seq<char>,
    hd: Seq<char>,
    key: Seq<char>,
    allowed: Option<Seq<Resolution>>,
)
    requires
        wd.len() > 0,
        hd.len() > 0,
        all_digits(wd),
        all_digits(hd),
        digits_value(wd) <= u16::MAX,
        digits_value(hd) <= u16::MAX,
        key.len() > 0,
    ensures
        ({
            let r = Resolution { width: digits_value(wd) as u16, height: digits_value(hd) as u16 };
            parse_outcome(request_path(wd, hd, key), allowed) == if permitted(allowed, r) {
                Ok::<RequestView, ParseError>(RequestView { image_key: key, resolution: r })
            } else {
                Err::<RequestView, ParseError>(ParseError::UnsupportedResolution)
            }
        }),
{
    let s = request_path(wd, hd, key);
    let x: int = 1 + wd.len() as int;
    let e: int = x + 1 + hd.len() as int;
    assert(s[0] == '/');
    assert(s[x] == 'x');
    assert(s[e] == '/');
    assert forall|k: int| 1 <= k < 1 + wd.len() implies is_digit(#[trigger] s[k]) by {
        assert(s[k] == wd[k - 1]);
    }
    assert forall|k: int| x + 1 <= k < x + 1 + hd.len() implies is_digit(#[trigger] s[k]) by {
        assert(s[k] == hd[k - x - 1]);
    }
    lemma_digit_run_exact(s, 1, wd.len());
    lemma_digit_run_exact(s, x + 1, hd.len());
    assert(x_index(s, 0) == x);
    assert(slash_index(s, 0) == e);
    assert(marker_at(s, 0));
    assert(first_marker(s) == Some(0int));
    assert(s.subrange(1, x) =~= wd);
    assert(s.subrange(x + 1, e) =~= hd);
    assert(s.subrange(e + 1, s.len() as int) =~= key);
}

/// A well-formed path with no allow-list configured parses to exactly its
/// image key and resolution.
pub proof fn lemma_parse_valid_path(wd: Seq<char>, hd: Seq<char>, key: Seq<char>)
    requires
        wd.len() > 0,
        hd.len() > 0,
        all_digits(wd),
        all_digits(hd),
        digits_value(wd) <= u16::MAX,
        digits_value(hd) <= u16::MAX,
        key.len() > 0,
    ensures
        parse_outcome(request_path(wd, hd, key), None) == Ok::<RequestView, ParseError>(
            RequestView {
                image_key: key,
                resolution: Resolution {
                    width: digits_value(wd) as u16,
                    height: digits_value(hd) as u16,
                },
            },
        ),
{
    lemma_parse_request_path(wd, hd, key, None);
}

proof fn lemma_no_marker_from(s: Seq<char>, i: nat)
    requires
        forall|j: int| 0 <= j < s.len() ==> !marker_at(s, j),
    ensures
        first_marker_from(s, i) is None,
    decreases s.len() - i,
{
    if i < s.len() {
        lemma_no_marker_from(s, i + 1);
    }
}

/// A path that holds no `/<digits>x<digits>/` anywhere is malformed,
/// whatever the allow-list.
pub proof fn lemma_parse_malformed(s: Seq<char>, allowed: Option<Seq<Resolution>>)
    requires
        forall|j: int| 0 <= j < s.len() ==> !marker_at(s, j),
    ensures
        parse_outcome(s, allowed) == Err::<RequestView, ParseError>(ParseError::Malformed),
{
    lemma_no_marker_from(s, 0);
}

/// A well-formed path whose resolution is missing from a non-empty
/// allow-list is refused as unsupported, not as malformed.
pub proof fn lemma_parse_unlisted(
    wd: Seq<char>,
    hd: Seq<char>,
    key: Seq<char>,
    allowed: Seq<Resolution>,
)
    requires
        wd.len() > 0,
        hd.len() > 0,
        all_digits(wd),
        all_digits(hd),
        digits_value(wd) <= u16::MAX,
        digits_value(hd) <= u16::MAX,
        key.len() > 0,
        allowed.len() > 0,
        !allowed.contains(
            Resolution { width: digits_value(wd) as u16, height: digits_value(hd) as u16 },
        ),
    ensures
        parse_outcome(request_path(wd, hd, key), Some(allowed)) == Err::<RequestView, ParseError>(
            ParseError::UnsupportedResolution,
        ),
{
    lemma_parse_request_path(wd, hd, key, Some(allowed));
}

/// A path made of `/` and a storage key parses back to the resolution and
/// image key that the storage key was made from.
pub proof fn lemma_storage_key_round_trip(r: Resolution, key: Seq<char>)
    requires
        key.len() > 0,
    ensures
        parse_outcome(seq!['/'] + storage_key(r, key), None) == Ok::<RequestView, ParseError>(
            RequestView { image_key: key, resolution: r },
        ),
{
    lemma_decimal(r.width as nat);
    lemma_decimal(r.height as nat);
    assert(seq!['/'] + storage_key(r, key) =~= request_path(
        decimal(r.width as nat),
        decimal(r.height as nat),
        key,
    ));
    lemma_parse_valid_path(decimal(r.width as nat), decimal(r.height as nat), key);
}

} // verus!
