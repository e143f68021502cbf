use vstd::prelude::*;

verus! {

/// The two shapes a request id takes on the wire.
#[derive(Debug, PartialEq, Eq, Hash, PartialOrd, Ord)]
pub enum IdRepr {
    I32(i32),
    Str(String),
}

/// Identifies a request and the response that answers it.
///
/// The integer `92` and the string `"92"` are different ids. Integer ids come
/// before string ids; integers are ordered by value, strings character by
/// character.
#[derive(Debug, Hash, Ord)]
pub struct RequestId {
    pub repr: IdRepr,
}

/// What a request id is, as a mathematical value.
pub enum IdView {
    Int(int),
    Text(Seq<char>),
}

impl View for RequestId {
    type V = IdView;

    open spec fn view(&self) -> IdView {
        match self.repr {
            IdRepr::I32(n) => IdView::Int(n as int),
            IdRepr::Str(s) => IdView::Text(s@),
        }
    }
}

/// The decimal digit for `d < 10`.
pub open spec fn digit_char(d: nat) -> char {
    ((d + 48) as u8) as char
}

/// Decimal digits of a natural number, most significant first, without leading zeros.
pub open spec fn nat_text(n: nat) -> Seq<char>
    decreases n,
{
    if n < 10 {
        seq![digit_char(n)]
    } else {
        nat_text(n / 10).push(digit_char(n % 10))
    }
}

/// How an integer prints: an optional minus sign, then its decimal digits.
pub open spec fn int_text(n: int) -> Seq<char> {
    if n < 0 {
        seq!['-'] + nat_text((-n) as nat)
    } else {
        nat_text(n as nat)
    }
}

/// The characters of a string as they stand between the quotes of its debug
/// form, with quotes, backslashes and control characters escaped.
pub uninterp spec fn escaped_text(s: Seq<char>) -> Seq<char>;

/// The debug form of a string: its escaped characters between double quotes.
pub open spec fn quoted_text(s: Seq<char>) -> Seq<char> {
    seq!['"'] + escaped_text(s) + seq!['"']
}

/// How a request id prints: integers as bare digits, strings in quotes.
pub open spec fn id_text(id: IdView) -> Seq<char> {
    match id {
        IdView::Int(n) => int_text(n),
        IdView::Text(s) => quoted_text(s),
    }
}

/// Relies on i32's `Display`: the decimal form, with a leading `-` when negative.
#[verifier::external_body]
fn decimal_of(n: i32) -> (r: String)
    ensures
        r@ == int_text(n as int),
{
    format!("{}", n)
}

/// Relies on str's `Debug`: a double quote, the string's characters escaped
/// one by one, and a closing double quote.
#[verifier::external_body]
fn quoted_of(s: &str) -> (r: String)
    ensures
        r@ == seq!['"'] + escaped_text(s@) + seq!['"'],
{
    format!("{:?}", s)
}

impl PartialEq for RequestId {
    fn eq(&self, other: &RequestId) -> (r: bool) {
        match (&self.repr, &other.repr) {
            (IdRepr::I32(a), IdRepr::I32(b)) => *a == *b,
            (IdRepr::Str(a), IdRepr::Str(b)) => *a == *b,
            _ => false,
        }
    }
}

impl vstd::std_specs::cmp::PartialEqSpecImpl for RequestId {
    open spec fn obeys_eq_spec() -> bool {
        true
    }

    open spec fn eq_spec(&self, other: &RequestId) -> bool {
        self@ == other@
    }
}

/// The order of two character sequences, character by character, a proper
/// prefix first.
pub open spec fn text_order(a: Seq<char>, b: Seq<char>) -> core::cmp::Ordering
    decreases a.len(),
{
    if a.len() == 0 {
        if b.len() == 0 {
            core::cmp::Ordering::Equal
        } else {
            core::cmp::Ordering::Less
        }
    } else if b.len() == 0 {
        core::cmp::Ordering::Greater
    } else if (a[0] as u32) < (b[0] as u32) {
        core::cmp::Ordering::Less
    } else if (a[0] as u32) > (b[0] as u32) {
        core::cmp::Ordering::Greater
    } else {
        text_order(a.drop_first(), b.drop_first())
    }
}

/// The order of two ids: integers before strings.
pub open spec fn id_order(a: IdView, b: IdView) -> core::cmp::Ordering {
    match (a, b) {
        (IdView::Int(x), IdView::Int(y)) => if x < y {
            core::cmp::Ordering::Less
        } else if x > y {
            core::cmp::Ordering::Greater
        } else {
            core::cmp::Ordering::Equal
        },
        (IdView::Int(_), IdView::Text(_)) => core::cmp::Ordering::Less,
        (IdView::Text(_), IdView::Int(_)) => core::cmp::Ordering::Greater,
        (IdView::Text(x), IdView::Text(y)) => text_order(x, y),
    }
}

fn compare_text(a: &str, b: &str) -> (r: core::cmp::Ordering)
    ensures
        r == text_order(a@, b@),
{
    let n = a.unicode_len();
    let m = b.unicode_len();
    let mut i: usize = 0;
    assert(a@.subrange(0, n as int) =~= a@);
    assert(b@.subrange(0, m as int) =~= b@);
    while i < n && i < m
        invariant
            n == a@.len(),
            m == b@.len(),
            i <= n,
            i <= m,
            text_order(a@, b@) == text_order(a@.subrange(i as int, n as int), b@.subrange(i as int, m as int)),
        decreases n - i,
    {
        let x = a.get_char(i);
        let y = b.get_char(i);
        let ghost sa = a@.subrange(i as int, n as int);
        let ghost sb = b@.subrange(i as int, m as int);
        assert(sa.drop_first() =~= a@.subrange(i + 1, n as int));
        assert(sb.drop_first() =~= b@.subrange(i + 1, m as int));
        if (x as u32) < (y as u32) {
            return core::cmp::Ordering::Less;
        } else if (x as u32) > (y as u32) {
            return core::cmp::Ordering::Greater;
        }
        i = i + 1;
    }
    if i < n {
        core::cmp::Ordering::Greater
    } else if i < m {
        core::cmp::Ordering::Less
    } else {
        core::cmp::Ordering::Equal
    }
}

impl PartialOrd for RequestId {
    fn partial_cmp(&self, other: &RequestId) -> (r: Option<core::cmp::Ordering>) {
        match (&self.repr, &other.repr) {
            (IdRepr::I32(a), IdRepr::I32(b)) => if *a < *b {
                Some(core::cmp::Ordering::Less)
            } else if *a > *b {
                Some(core::cmp::Ordering::Greater)
            } else {
                Some(core::cmp::Ordering::Equal)
            },
            (IdRepr::I32(_), IdRepr::Str(_)) => Some(core::cmp::Ordering::Less),
            (IdRepr::Str(_), IdRepr::I32(_)) => Some(core::cmp::Ordering::Greater),
            (IdRepr::Str(a), IdRepr::Str(b)) => Some(compare_text(a.as_str(), b.as_str())),
        }
    }
}

impl vstd::std_specs::cmp::PartialOrdSpecImpl for RequestId {
    open spec fn obeys_partial_cmp_spec() -> bool {
        true
    }

    open spec fn partial_cmp_spec(&self, other: &RequestId) -> Option<core::cmp::Ordering> {
        Some(id_order(self@, other@))
    }
}

impl Eq for RequestId {
}

impl Clone for RequestId {
    fn clone(&self) -> (r: RequestId)
        ensures
            r == *self,
    {
        match &self.repr {
            IdRepr::I32(n) => RequestId { repr: IdRepr::I32(*n) },
            IdRepr::Str(s) => RequestId { repr: IdRepr::Str(s.clone()) },
        }
    }
}

impl RequestId {
    /// An id that is an integer.
    pub fn from_int(n: i32) -> (r: RequestId)
        ensures
            r@ == IdView::Int(n as int),
    {
        RequestId { repr: IdRepr::I32(n) }
    }

    /// An id that is a string.
    pub fn from_string(s: String) -> (r: RequestId)
        ensures
            r@ == IdView::Text(s@),
    {
        RequestId { repr: IdRepr::Str(s) }
    }

    /// Prints the id: an integer as its digits, a string quoted, so that `92`
    /// and `"92"` can be told apart.
    pub fn to_display_string(&self) -> (r: String)
        ensures
            r@ == id_text(self@),
    {
        match &self.repr {
            IdRepr::I32(n) => decimal_of(*n),
            IdRepr::Str(s) => quoted_of(s.as_str()),
        }
    }
}

impl From<i32> for RequestId {
    fn from(n: i32) -> (r: RequestId) {
        RequestId { repr: IdRepr::I32(n) }
    }
}

impl vstd::std_specs::convert::FromSpecImpl<i32> for RequestId {
    open spec fn obeys_from_spec() -> bool {
        true
    }

    open spec fn from_spec(n: i32) -> RequestId {
        RequestId { repr: IdRepr::I32(n) }
    }
}

impl From<String> for RequestId {
    fn from(s: String) -> (r: RequestId) {
        RequestId { repr: IdRepr::Str(s) }
    }
}

impl vstd::std_specs::convert::FromSpecImpl<String> for RequestId {
    open spec fn obeys_from_spec() -> bool {
        true
    }

    open spec fn from_spec(s: String) -> RequestId {
        RequestId { repr: IdRepr::Str(s) }
    }
}

/// The text of a natural number starts with a digit.
proof fn lemma_nat_text_starts_with_digit(n: nat)
    ensures
        nat_text(n).len() >= 1,
        '0' <= nat_text(n)[0] <= '9',
    decreases n,
{
    if n >= 10 {
        lemma_nat_text_starts_with_digit(n / 10);
    }
}

/// An integer id and a string id are never equal nor ordered alike, whatever
/// the string holds, and they never print alike: the string form always
/// begins with a quote.
pub proof fn lemma_int_and_string_ids_differ(n: i32, s: Seq<char>)
    ensures
        IdView::Int(n as int) != IdView::Text(s),
        id_order(IdView::Int(n as int), IdView::Text(s)) == core::cmp::Ordering::Less,
        id_text(IdView::Int(n as int)) != id_text(IdView::Text(s)),
        id_text(IdView::Text(s))[0] == '"',
        id_text(IdView::Int(n as int))[0] != '"',
{
    if n < 0 {
        lemma_nat_text_starts_with_digit((-n) as nat);
        assert(int_text(n as int)[0] == '-');
    } else {
        lemma_nat_text_starts_with_digit(n as nat);
    }
    assert(id_text(IdView::Text(s))[0] == '"');
}

} // verus!
