use vstd::prelude::*;
use vstd::slice::slice_subrange;

verus! {

/// The request methods that the routes tell apart.
#[derive(Clone, Copy, Debug, PartialEq, Eq, Structural)]
pub enum Method {
    Get,
    Head,
    Post,
    Put,
    Delete,
    Other,
}

/// The operation that a request is dispatched to, with its path parameter.
#[derive(Clone, Copy, Debug, PartialEq, Eq, Structural)]
pub enum Route {
    Alive,
    Ready,
    List,
    Create,
    Read(i64),
    Update(i64),
    Delete(i64),
}

/// Why a request reaches no operation: no route has its path, the route has no
/// such method, or the `id` segment is not an integer.
#[derive(Clone, Copy, Debug, PartialEq, Eq, Structural)]
pub enum RouteError {
    NotFound,
    MethodNotAllowed,
    InvalidId,
}

/// ASCII codes of the characters that paths and integers are made of.
pub const DIGIT_ZERO: u8 = 48;

pub const DIGIT_NINE: u8 = 57;

pub const MINUS: u8 = 45;

pub const PLUS: u8 = 43;

pub const SLASH: u8 = 47;

pub const PERCENT: u8 = 37;

pub open spec fn is_digit(c: u8) -> bool {
    DIGIT_ZERO <= c <= DIGIT_NINE
}

pub open spec fn all_digits(s: Seq<u8>) -> bool {
    forall|i: int| 0 <= i < s.len() ==> is_digit(#[trigger] s[i])
}

/// The number that a run of decimal digits writes.
pub open spec fn digits_value(s: Seq<u8>) -> int
    decreases s.len(),
{
    if s.len() == 0 {
        0
    } else {
        digits_value(s.drop_last()) * 10 + (s.last() - DIGIT_ZERO)
    }
}

/// The 64-bit integer that `s` writes in decimal: an optional `+` or `-`, then at
/// least one digit, with a value in range.
pub open spec fn parsed_id(s: Seq<u8>) -> Option<i64> {
    if s.len() > 0 && s[0] == MINUS {
        let d = s.drop_first();
        if d.len() > 0 && all_digits(d) && digits_value(d) <= 0x8000_0000_0000_0000 {
            Some((-digits_value(d)) as i64)
        } else {
            None
        }
    } else {
        let d = if s.len() > 0 && s[0] == PLUS {
            s.drop_first()
        } else {
            s
        };
        if d.len() > 0 && all_digits(d) && digits_value(d) <= i64::MAX {
            Some(digits_value(d) as i64)
        } else {
            None
        }
    }
}

proof fn lemma_digits_value_nonneg(s: Seq<u8>)
    requires
        all_digits(s),
    ensures
        digits_value(s) >= 0,
    decreases s.len(),
{
    if s.len() > 0 {
        assert(all_digits(s.drop_last())) by {
            assert forall|k: int| 0 <= k < s.len() - 1 implies is_digit(#[trigger] s.drop_last()[k]) by {
                assert(s.drop_last()[k] == s[k]);
            }
        }
        lemma_digits_value_nonneg(s.drop_last());
        assert(is_digit(s[s.len() - 1]));
    }
}

proof fn lemma_digits_value_grows(s: Seq<u8>, j: int)
    requires
        0 <= j <= s.len(),
        all_digits(s),
    ensures
        digits_value(s.subrange(0, j)) <= digits_value(s),
    decreases s.len() - j,
{
    if j < s.len() {
        lemma_digits_value_grows(s, j + 1);
        let t = s.subrange(0, j + 1);
        assert(t.drop_last() =~= s.subrange(0, j));
        assert(is_digit(s[j]));
        assert(all_digits(s.subrange(0, j))) by {
            assert forall|k: int| 0 <= k < j implies is_digit(#[trigger] s.subrange(0, j)[k]) by {
                assert(s.subrange(0, j)[k] == s[k]);
            }
        }
        lemma_digits_value_nonneg(s.subrange(0, j));
    } else {
        assert(s.subrange(0, j) =~= s);
    }
}

/// Reads the unsigned digits of `s` from `start` on, when they are all digits, at
/// least one, with a value of at most 2^63.
fn digits_from(s: &[u8], start: usize) -> (r: Option<u64>)
    requires
        start <= s@.len(),
    ensures
        ({
            let d = s@.subrange(start as int, s@.len() as int);
            match r {
                Some(v) => d.len() > 0 && all_digits(d) && v == digits_value(d) && v
                    <= 0x8000_0000_0000_0000,
                None => !(d.len() > 0 && all_digits(d) && digits_value(d) <= 0x8000_0000_0000_0000),
            }
        }),
{
    let ghost d = s@.subrange(start as int, s@.len() as int);
    if start == s.len() {
        return None;
    }
    let mut acc: u64 = 0;
    let mut i: usize = start;
    while i < s.len()
        invariant
            start <= i <= s@.len(),
            d == s@.subrange(start as int, s@.len() as int),
            all_digits(s@.subrange(start as int, i as int)),
            acc == digits_value(s@.subrange(start as int, i as int)),
            acc <= 0x8000_0000_0000_0000,
        decreases s@.len() - i,
    {
        let c = s[i];
        let ghost p = s@.subrange(start as int, i as int);
        let ghost q = s@.subrange(start as int, i + 1);
        assert(q.drop_last() =~= p);
        if c < DIGIT_ZERO || c > DIGIT_NINE {
            proof {
                assert(d[i - start] == c);
            }
            return None;
        }
        let v = (c - DIGIT_ZERO) as u64;
        if acc > 922_337_203_685_477_580 || (acc == 922_337_203_685_477_580 && v > 8) {
            proof {
                if all_digits(d) {
                    assert(q =~= d.subrange(0, i + 1 - start));
                    lemma_digits_value_grows(d, i + 1 - start);
                }
            }
            return None;
        }
        acc = acc * 10 + v;
        assert(all_digits(q)) by {
            assert forall|k: int| 0 <= k < q.len() implies is_digit(#[trigger] q[k]) by {
                if k < p.len() {
                    assert(q[k] == p[k]);
                }
            }
        }
        i = i + 1;
    }
    Some(acc)
}

/// Parses the `id` path segment as a signed 64-bit decimal integer.
pub fn parse_id(s: &[u8]) -> (r: Option<i64>)
    ensures
        r == parsed_id(s@),
{
    if s.len() > 0 && s[0] == MINUS {
        let ghost d = s@.drop_first();
        assert(s@.subrange(1, s@.len() as int) =~= d);
        match digits_from(s, 1) {
            Some(v) => {
                if v == 0x8000_0000_0000_0000 {
                    Some(i64::MIN)
                } else {
                    Some(-(v as i64))
                }
            },
            None => None,
        }
    } else {
        let start: usize = if s.len() > 0 && s[0] == PLUS {
            1
        } else {
            0
        };
        assert(s@.subrange(0, s@.len() as int) =~= s@);
        assert(s@.subrange(1, s@.len() as int) =~= s@.drop_first());
        match digits_from(s, start) {
            Some(v) => {
                if v <= 0x7fff_ffff_ffff_ffff {
                    Some(v as i64)
                } else {
                    None
                }
            },
            None => None,
        }
    }
}

/// The value of a hexadecimal digit, in either case.
pub open spec fn hex_value(c: u8) -> Option<u8> {
    if 48 <= c <= 57 {
        Some((c - 48) as u8)
    } else if 65 <= c <= 70 {
        Some((c - 55) as u8)
    } else if 97 <= c <= 102 {
        Some((c - 87) as u8)
    } else {
        None
    }
}

/// `s` with each `%` followed by two hexadecimal digits replaced by the byte they
/// write; any other `%` stays as it is.
pub open spec fn percent_decoded(s: Seq<u8>) -> Seq<u8>
    decreases s.len(),
{
    if s.len() == 0 {
        Seq::empty()
    } else if s.len() >= 3 && s[0] == PERCENT && hex_value(s[1]) is Some && hex_value(s[2]) is Some {
        seq![(hex_value(s[1])->Some_0 * 16 + hex_value(s[2])->Some_0) as u8] + percent_decoded(
            s.subrange(3, s.len() as int),
        )
    } else {
        seq![s[0]] + percent_decoded(s.drop_first())
    }
}

fn hex_digit(c: u8) -> (r: Option<u8>)
    ensures
        r == hex_value(c),
{
    if 48 <= c && c <= 57 {
        Some(c - 48)
    } else if 65 <= c && c <= 70 {
        Some(c - 55)
    } else if 97 <= c && c <= 102 {
        Some(c - 87)
    } else {
        None
    }
}

/// Decodes the percent escapes of a path segment.
pub fn percent_decode(s: &[u8]) -> (r: Vec<u8>)
    ensures
        r@ == percent_decoded(s@),
{
    let n = s.len();
    let mut out: Vec<u8> = Vec::new();
    let mut i: usize = 0;
    assert(s@.subrange(0, n as int) =~= s@);
    while i < n
        invariant
            n == s@.len(),
            i <= n,
            out@ + percent_decoded(s@.subrange(i as int, n as int)) == percent_decoded(s@),
        decreases n - i,
    {
        let ghost rest = s@.subrange(i as int, n as int);
        assert(rest[0] == s@[i as int]);
        let mut step: usize = 1;
        let mut byte: u8 = s[i];
        if s[i] == PERCENT && n - i >= 3 {
            assert(rest[1] == s@[i + 1]);
            assert(rest[2] == s@[i + 2]);
            match (hex_digit(s[i + 1]), hex_digit(s[i + 2])) {
                (Some(h), Some(l)) => {
                    byte = h * 16 + l;
                    step = 3;
                },
                _ => {},
            }
        }
        assert(rest.subrange(step as int, rest.len() as int) =~= s@.subrange(i + step, n as int));
        assert(rest.drop_first() =~= s@.subrange(i + 1, n as int));
        assert(percent_decoded(rest) == seq![byte] + percent_decoded(s@.subrange(i + step, n as int)));
        let ghost before = out@;
        out.push(byte);
        assert(out@ =~= before + seq![byte]);
        assert(out@ + percent_decoded(s@.subrange(i + step, n as int)) =~= before + percent_decoded(rest));
        i = i + step;
    }
    assert(s@.subrange(n as int, n as int) =~= Seq::<u8>::empty());
    assert(out@ + Seq::<u8>::empty() =~= out@);
    out
}

/// `/alive`
pub open spec fn alive_path() -> Seq<u8> {
    seq![47u8, 97u8, 108u8, 105u8, 118u8, 101u8]
}

/// `/ready`
pub open spec fn ready_path() -> Seq<u8> {
    seq![47u8, 114u8, 101u8, 97u8, 100u8, 121u8]
}

/// `/v1/todos`
pub open spec fn todos_path() -> Seq<u8> {
    seq![47u8, 118u8, 49u8, 47u8, 116u8, 111u8, 100u8, 111u8, 115u8]
}

/// The route table. `HEAD` is served wherever `GET` is. A path of the form
/// `/v1/todos/{id}` has a non-empty `id` segment without `/`; the method is
/// checked before the segment is percent-decoded and parsed.
pub open spec fn spec_route(method: Method, path: Seq<u8>) -> Result<Route, RouteError> {
    let method = if method == Method::Head {
        Method::Get
    } else {
        method
    };
    if path == alive_path() {
        if method == Method::Get { Ok(Route::Alive) } else { Err(RouteError::MethodNotAllowed) }
    } else if path == ready_path() {
        if method == Method::Get { Ok(Route::Ready) } else { Err(RouteError::MethodNotAllowed) }
    } else if path == todos_path() {
        match method {
            Method::Get => Ok(Route::List),
            Method::Post => Ok(Route::Create),
            _ => Err(RouteError::MethodNotAllowed),
        }
    } else if path.len() > todos_path().len() + 1 && path.subrange(0, todos_path().len() as int)
        == todos_path() && path[todos_path().len() as int] == SLASH && (forall|i: int|
        todos_path().len() < i < path.len() ==> #[trigger] path[i] != SLASH) {
        let seg = path.subrange(todos_path().len() + 1int, path.len() as int);
        match method {
            Method::Get | Method::Put | Method::Delete => match parsed_id(percent_decoded(seg)) {
                Some(id) => match method {
                    Method::Get => Ok(Route::Read(id)),
                    Method::Put => Ok(Route::Update(id)),
                    _ => Ok(Route::Delete(id)),
                },
                None => Err(RouteError::InvalidId),
            },
            _ => Err(RouteError::MethodNotAllowed),
        }
    } else {
        Err(RouteError::NotFound)
    }
}

/// Whether `lit` stands in `p` at `start`.
fn segment_at(p: &[u8], start: usize, lit: &[u8]) -> (r: bool)
    requires
        start <= p@.len(),
    ensures
        r == (start + lit@.len() <= p@.len() && p@.subrange(start as int, start + lit@.len()) == lit@),
{
    if lit.len() > p.len() - start {
        return false;
    }
    let n = p.len();
    let mut i: usize = 0;
    while i < lit.len()
        invariant
            n == p@.len(),
            start + lit@.len() <= p@.len(),
            i <= lit@.len(),
            forall|k: int| 0 <= k < i ==> p@[start + k] == #[trigger] lit@[k],
        decreases lit@.len() - i,
    {
        if p[start + i] != lit[i] {
            assert(p@.subrange(start as int, start + lit@.len())[i as int] != lit@[i as int]);
            return false;
        }
        i = i + 1;
    }
    assert(p@.subrange(start as int, start + lit@.len()) =~= lit@);
    true
}

/// Selects the operation for a request from its method and path.
pub fn route(method: Method, path: &[u8]) -> (r: Result<Route, RouteError>)
    ensures
        r == spec_route(method, path@),
{
    let method = if method == Method::Head {
        Method::Get
    } else {
        method
    };
    let alive: [u8; 6] = [47, 97, 108, 105, 118, 101];
    let ready: [u8; 6] = [47, 114, 101, 97, 100, 121];
    let todos: [u8; 9] = [47, 118, 49, 47, 116, 111, 100, 111, 115];
    assert(alive@ =~= alive_path());
    assert(ready@ =~= ready_path());
    assert(todos@ =~= todos_path());
    assert(path@.subrange(0, path@.len() as int) =~= path@);
    if path.len() == 6 && segment_at(path, 0, alive.as_slice()) {
        return if method == Method::Get { Ok(Route::Alive) } else { Err(RouteError::MethodNotAllowed) };
    }
    if path.len() == 6 && segment_at(path, 0, ready.as_slice()) {
        return if method == Method::Get { Ok(Route::Ready) } else { Err(RouteError::MethodNotAllowed) };
    }
    if path.len() == 9 && segment_at(path, 0, todos.as_slice()) {
        return match method {
            Method::Get => Ok(Route::List),
            Method::Post => Ok(Route::Create),
            _ => Err(RouteError::MethodNotAllowed),
        };
    }
    if path.len() <= 10 || !segment_at(path, 0, todos.as_slice()) || path[9] != SLASH {
        return Err(RouteError::NotFound);
    }
    let mut i: usize = 10;
    while i < path.len()
        invariant
            10 <= i <= path@.len(),
            forall|k: int| 9 < k < i ==> #[trigger] path@[k] != SLASH,
        decreases path@.len() - i,
    {
        if path[i] == SLASH {
            return Err(RouteError::NotFound);
        }
        i = i + 1;
    }
    match method {
        Method::Get | Method::Put | Method::Delete => {
            let seg = slice_subrange(path, 10, path.len());
            let decoded = percent_decode(seg);
            match parse_id(decoded.as_slice()) {
                Some(id) => match method {
                    Method::Get => Ok(Route::Read(id)),
                    Method::Put => Ok(Route::Update(id)),
                    _ => Ok(Route::Delete(id)),
                },
                None => Err(RouteError::InvalidId),
            }
        },
        _ => Err(RouteError::MethodNotAllowed),
    }
}

} // verus!
