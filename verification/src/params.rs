//! Request query parameters: one ordered string-keyed map with a generic
//! `set` entry point, per-endpoint builders over it, and the rendering of a
//! parameter map into a query string.

use vstd::prelude::*;
use vstd::string::{StrSliceExecFns, StringExecFns};
use crate::text::{spec_dec_digits, spec_dec_digits_signed, u64_to_string, i64_to_string};

verus! {

/// An ordered string-keyed parameter map: setting a present name replaces
/// its value in place, setting a fresh name appends it.
pub struct ParamMap {
    /// The parameters, in first-set order.
    pub entries: Vec<(String, String)>,
}

impl View for ParamMap {
    type V = Seq<(Seq<char>, Seq<char>)>;

    open spec fn view(&self) -> Seq<(Seq<char>, Seq<char>)> {
        self.entries@.map_values(|p: (String, String)| (p.0@, p.1@))
    }
}

/// The map after one `set`: the first pair under the name gets the new
/// value; a fresh name lands at the end.
pub open spec fn spec_set_kv(
    m: Seq<(Seq<char>, Seq<char>)>,
    k: Seq<char>,
    v: Seq<char>,
) -> Seq<(Seq<char>, Seq<char>)>
    decreases m.len(),
{
    if m.len() == 0 {
        seq![(k, v)]
    } else if m[0].0 == k {
        seq![(k, v)] + m.drop_first()
    } else {
        seq![m[0]] + spec_set_kv(m.drop_first(), k, v)
    }
}

/// `spec_set_kv` updates in place at the first occurrence of the name.
proof fn lemma_set_kv_at(m: Seq<(Seq<char>, Seq<char>)>, k: Seq<char>, v: Seq<char>, i: int)
    requires
        0 <= i < m.len(),
        m[i].0 == k,
        forall|l: int| 0 <= l < i ==> (#[trigger] m[l]).0 != k,
    ensures
        spec_set_kv(m, k, v) =~= m.update(i, (k, v)),
    decreases i,
{
    if i == 0 {
    } else {
        lemma_set_kv_at(m.drop_first(), k, v, i - 1);
        assert(seq![m[0]] + m.drop_first().update(i - 1, (k, v)) =~= m.update(i, (k, v)));
    }
}

/// `spec_set_kv` appends when the name is absent.
proof fn lemma_set_kv_absent(m: Seq<(Seq<char>, Seq<char>)>, k: Seq<char>, v: Seq<char>)
    requires
        forall|l: int| 0 <= l < m.len() ==> (#[trigger] m[l]).0 != k,
    ensures
        spec_set_kv(m, k, v) =~= m.push((k, v)),
    decreases m.len(),
{
    if m.len() == 0 {
    } else {
        lemma_set_kv_absent(m.drop_first(), k, v);
        assert(seq![m[0]] + m.drop_first().push((k, v)) =~= m.push((k, v)));
    }
}

impl ParamMap {
    /// An empty map.
    pub fn new() -> (r: ParamMap)
        ensures
            r@.len() == 0,
    {
        let r = ParamMap { entries: Vec::new() };
        proof {
            assert(r@ =~= Seq::<(Seq<char>, Seq<char>)>::empty());
        }
        r
    }

    /// Sets `name` to `value`: replaces the first pair under the name, or
    /// appends a fresh name at the end.
    pub fn set(&mut self, name: &str, value: String)
        ensures
            final(self)@ == spec_set_kv(old(self)@, name@, value@),
    {
        let owned: String = name.to_owned();
        let mut i: usize = 0;
        let mut found: Option<usize> = None;
        while i < self.entries.len()
            invariant
                i <= self.entries@.len(),
                owned@ == name@,
                found is None ==> forall|l: int| 0 <= l < i ==> (#[trigger] self@[l]).0 != name@,
                found matches Some(p) ==> {
                    &&& 0 <= p < i
                    &&& self@[p as int].0 == name@
                    &&& forall|l: int| 0 <= l < p ==> (#[trigger] self@[l]).0 != name@
                },
        decreases self.entries.len() - i,
        {
            if found.is_none() {
                let hit = self.entries[i].0 == owned;
                if hit {
                    found = Some(i);
                }
            }
            i = i + 1;
        }
        let ghost before: Seq<(Seq<char>, Seq<char>)> = self@;
        match found {
            Some(p) => {
                self.entries.set(p, (owned, value));
                proof {
                    assert(self@ =~= before.update(p as int, (name@, value@)));
                    lemma_set_kv_at(before, name@, value@, p as int);
                }
            },
            None => {
                self.entries.push((owned, value));
                proof {
                    assert(self@ =~= before.push((name@, value@)));
                    lemma_set_kv_absent(before, name@, value@);
                }
            },
        }
    }
}

/// The lower-case form of one ASCII capital letter; any other character is
/// unchanged.
pub open spec fn spec_lower_char(c: char) -> char {
    if c == 'A' {
        'a'
    } else if c == 'B' {
        'b'
    } else if c == 'C' {
        'c'
    } else if c == 'D' {
        'd'
    } else if c == 'E' {
        'e'
    } else if c == 'F' {
        'f'
    } else if c == 'G' {
        'g'
    } else if c == 'H' {
        'h'
    } else if c == 'I' {
        'i'
    } else if c == 'J' {
        'j'
    } else if c == 'K' {
        'k'
    } else if c == 'L' {
        'l'
    } else if c == 'M' {
        'm'
    } else if c == 'N' {
        'n'
    } else if c == 'O' {
        'o'
    } else if c == 'P' {
        'p'
    } else if c == 'Q' {
        'q'
    } else if c == 'R' {
        'r'
    } else if c == 'S' {
        's'
    } else if c == 'T' {
        't'
    } else if c == 'U' {
        'u'
    } else if c == 'V' {
        'v'
    } else if c == 'W' {
        'w'
    } else if c == 'X' {
        'x'
    } else if c == 'Y' {
        'y'
    } else if c == 'Z' {
        'z'
    } else {
        c
    }
}

/// A name as the query string carries it: ASCII capitals lowered, the rest
/// unchanged.
pub open spec fn spec_lower(s: Seq<char>) -> Seq<char> {
    Seq::new(s.len(), |i: int| spec_lower_char(s[i]))
}

/// One lowered ASCII capital as a string slice.
fn lower_letter(c: char) -> (r: &'static str)
    requires
        'A' <= c <= 'Z',
    ensures
        r@ == seq![spec_lower_char(c)],
{
    proof {
        reveal_strlit("a");
        reveal_strlit("b");
        reveal_strlit("c");
        reveal_strlit("d");
        reveal_strlit("e");
        reveal_strlit("f");
        reveal_strlit("g");
        reveal_strlit("h");
        reveal_strlit("i");
        reveal_strlit("j");
        reveal_strlit("k");
        reveal_strlit("l");
        reveal_strlit("m");
        reveal_strlit("n");
        reveal_strlit("o");
        reveal_strlit("p");
        reveal_strlit("q");
        reveal_strlit("r");
        reveal_strlit("s");
        reveal_strlit("t");
        reveal_strlit("u");
        reveal_strlit("v");
        reveal_strlit("w");
        reveal_strlit("x");
        reveal_strlit("y");
        reveal_strlit("z");
    }
    let r: &'static str = match c {
        'A' => "a",
        'B' => "b",
        'C' => "c",
        'D' => "d",
        'E' => "e",
        'F' => "f",
        'G' => "g",
        'H' => "h",
        'I' => "i",
        'J' => "j",
        'K' => "k",
        'L' => "l",
        'M' => "m",
        'N' => "n",
        'O' => "o",
        'P' => "p",
        'Q' => "q",
        'R' => "r",
        'S' => "s",
        'T' => "t",
        'U' => "u",
        'V' => "v",
        'W' => "w",
        'X' => "x",
        'Y' => "y",
        _ => "z",
    };
    proof {
        assert(r@ =~= seq![spec_lower_char(c)]);
    }
    r
}

/// Lowers the ASCII capitals of a name; every other character passes
/// through.
fn lowercase_ascii(s: &str) -> (r: String)
    ensures
        r@ == spec_lower(s@),
{
    let n = s.unicode_len();
    let mut out = String::new();
    let mut i: usize = 0;
    proof {
        assert(out@ =~= spec_lower(s@.take(0)));
    }
    while i < n
        invariant
            n == s@.len(),
            i <= n,
            out@ == spec_lower(s@.take(i as int)),
        decreases n - i,
    {
        let c = s.get_char(i);
        if 'A' <= c && c <= 'Z' {
            out.append(lower_letter(c));
        } else {
            let piece = s.substring_char(i, i + 1);
            out.append(piece);
        }
        proof {
            assert(out@ =~= spec_lower(s@.take(i as int + 1)));
        }
        i = i + 1;
    }
    proof {
        assert(s@.take(n as int) =~= s@);
    }
    out
}

/// One `name=value` pair as it appears in a query string: the name is
/// lowercased at render, as the vendor's query names are lower-case.
pub open spec fn spec_kv_chars(e: (Seq<char>, Seq<char>)) -> Seq<char> {
    spec_lower(e.0) + seq!['='] + e.1
}

/// The pairs joined with `&`.
pub open spec fn spec_join_kv(m: Seq<(Seq<char>, Seq<char>)>) -> Seq<char>
    decreases m.len(),
{
    if m.len() == 0 {
        Seq::empty()
    } else if m.len() == 1 {
        spec_kv_chars(m[0])
    } else {
        spec_join_kv(m.drop_last()) + seq!['&'] + spec_kv_chars(m.last())
    }
}

/// The full query string: empty for no parameters, else a `?` ahead of the
/// joined pairs.
pub open spec fn spec_query_string(m: Seq<(Seq<char>, Seq<char>)>) -> Seq<char> {
    if m.len() == 0 {
        Seq::empty()
    } else {
        seq!['?'] + spec_join_kv(m)
    }
}

/// The query string of an optional parameter map.
pub open spec fn spec_opt_query(params: Option<&ParamMap>) -> Seq<char> {
    match params {
        None => Seq::empty(),
        Some(m) => spec_query_string(m@),
    }
}

/// Renders the parameters as a query string: nothing at all when there are
/// none, else `?` and the `name=value` pairs joined with `&`, in first-set
/// order, each name lowercased.
pub fn make_params(params: Option<&ParamMap>) -> (r: String)
    ensures
        r@ == spec_opt_query(params),
{
    proof {
        reveal_strlit("?");
        reveal_strlit("=");
        reveal_strlit("&");
    }
    let m = match params {
        None => {
            let r = String::new();
            proof {
                assert(r@ =~= spec_opt_query(params));
            }
            return r;
        },
        Some(m) => m,
    };
    if m.entries.len() == 0 {
        let r = String::new();
        proof {
            assert(r@ =~= spec_opt_query(params));
        }
        return r;
    }
    let mut s = String::from_str("?");
    let mut i: usize = 0;
    while i < m.entries.len()
        invariant
            1 <= m@.len(),
            i <= m@.len(),
            "?"@ == seq!['?'],
            "="@ == seq!['='],
            "&"@ == seq!['&'],
            s@ == seq!['?'] + spec_join_kv(m@.take(i as int)),
        decreases m.entries.len() - i,
    {
        if i > 0 {
            s.append("&");
        }
        s.append(lowercase_ascii(m.entries[i].0.as_str()).as_str());
        s.append("=");
        s.append(m.entries[i].1.as_str());
        proof {
            let t = m@.take(i as int + 1);
            assert(t.drop_last() =~= m@.take(i as int));
            assert(t.last() == m@[i as int]);
            if i == 0 {
                assert(s@ =~= seq!['?'] + spec_join_kv(t));
            } else {
                assert(s@ =~= seq!['?'] + spec_join_kv(t));
            }
        }
        i = i + 1;
    }
    proof {
        assert(m@.take(m@.len() as int) =~= m@);
    }
    s
}

/// The characters a boolean parameter renders to.
pub open spec fn spec_bool_chars(b: bool) -> Seq<char> {
    if b {
        "true"@
    } else {
        "false"@
    }
}

/// Renders a boolean parameter value.
fn bool_to_string(b: bool) -> (r: String)
    ensures
        r@ == spec_bool_chars(b),
{
    if b {
        String::from_str("true")
    } else {
        String::from_str("false")
    }
}

/// Query parameters for the per-symbol aggregate endpoint.
pub struct AggsParams {
    /// The parameters set so far.
    pub params: ParamMap,
}

impl AggsParams {
    /// An empty parameter set.
    pub fn new() -> (r: AggsParams)
        ensures
            r.params@.len() == 0,
    {
        AggsParams { params: ParamMap::new() }
    }

    /// Asks for unadjusted prices.
    pub fn unadjusted(self, value: bool) -> (r: AggsParams)
        ensures
            r.params@ == spec_set_kv(self.params@, "unadjusted"@, spec_bool_chars(value)),
    {
        let mut p = self;
        p.params.set("unadjusted", bool_to_string(value));
        p
    }

    /// Sets the sort order.
    pub fn sort(self, value: &str) -> (r: AggsParams)
        ensures
            r.params@ == spec_set_kv(self.params@, "sort"@, value@),
    {
        let mut p = self;
        p.params.set("sort", value.to_owned());
        p
    }

    /// Caps the number of results.
    pub fn limit(self, value: i32) -> (r: AggsParams)
        ensures
            r.params@ == spec_set_kv(self.params@, "limit"@, spec_dec_digits_signed(value as int)),
    {
        let mut p = self;
        p.params.set("limit", i64_to_string(value as i64));
        p
    }
}

/// Query parameters for the grouped-daily endpoint.
pub struct GroupedParams {
    /// The parameters set so far.
    pub params: ParamMap,
}

impl GroupedParams {
    /// An empty parameter set.
    pub fn new() -> (r: GroupedParams)
        ensures
            r.params@.len() == 0,
    {
        GroupedParams { params: ParamMap::new() }
    }

    /// Asks for unadjusted prices.
    pub fn unadjusted(self, value: bool) -> (r: GroupedParams)
        ensures
            r.params@ == spec_set_kv(self.params@, "unadjusted"@, spec_bool_chars(value)),
    {
        let mut p = self;
        p.params.set("unadjusted", bool_to_string(value));
        p
    }
}

/// Query parameters for the quotes endpoint.
pub struct NBBOsParams {
    /// The parameters set so far.
    pub params: ParamMap,
}

impl NBBOsParams {
    /// An empty parameter set.
    pub fn new() -> (r: NBBOsParams)
        ensures
            r.params@.len() == 0,
    {
        NBBOsParams { params: ParamMap::new() }
    }

    /// Filters on the exact timestamp.
    pub fn timestamp(self, value: &str) -> (r: NBBOsParams)
        ensures
            r.params@ == spec_set_kv(self.params@, "timestamp"@, value@),
    {
        let mut p = self;
        p.params.set("timestamp", value.to_owned());
        p
    }

    /// Filters on timestamps strictly before the value.
    pub fn timestamp_lt(self, value: &str) -> (r: NBBOsParams)
        ensures
            r.params@ == spec_set_kv(self.params@, "timestamp_lt"@, value@),
    {
        let mut p = self;
        p.params.set("timestamp_lt", value.to_owned());
        p
    }

    /// Filters on timestamps at or before the value.
    pub fn timestamp_lte(self, value: &str) -> (r: NBBOsParams)
        ensures
            r.params@ == spec_set_kv(self.params@, "timestamp_lte"@, value@),
    {
        let mut p = self;
        p.params.set("timestamp_lte", value.to_owned());
        p
    }

    /// Filters on timestamps strictly after the value.
    pub fn timestamp_gt(self, value: &str) -> (r: NBBOsParams)
        ensures
            r.params@ == spec_set_kv(self.params@, "timestamp_gt"@, value@),
    {
        let mut p = self;
        p.params.set("timestamp_gt", value.to_owned());
        p
    }

    /// Filters on timestamps at or after the value.
    pub fn timestamp_gte(self, value: &str) -> (r: NBBOsParams)
        ensures
            r.params@ == spec_set_kv(self.params@, "timestamp_gte"@, value@),
    {
        let mut p = self;
        p.params.set("timestamp_gte", value.to_owned());
        p
    }

    /// Sets the sort order field.
    pub fn order(self, value: &str) -> (r: NBBOsParams)
        ensures
            r.params@ == spec_set_kv(self.params@, "order"@, value@),
    {
        let mut p = self;
        p.params.set("order", value.to_owned());
        p
    }

    /// Reverses the sort.
    pub fn reverse(self, value: bool) -> (r: NBBOsParams)
        ensures
            r.params@ == spec_set_kv(self.params@, "reverse"@, spec_bool_chars(value)),
    {
        let mut p = self;
        p.params.set("reverse", bool_to_string(value));
        p
    }

    /// Caps the page size.
    pub fn limit(self, value: usize) -> (r: NBBOsParams)
        ensures
            r.params@ == spec_set_kv(self.params@, "limit"@, spec_dec_digits(value as int)),
    {
        let mut p = self;
        p.params.set("limit", u64_to_string(value as u64));
        p
    }

    /// Continues from a cursor issued by the previous page.
    pub fn cursor(self, value: &str) -> (r: NBBOsParams)
        ensures
            r.params@ == spec_set_kv(self.params@, "cursor"@, value@),
    {
        let mut p = self;
        p.params.set("cursor", value.to_owned());
        p
    }
}

/// Query parameters for the trades endpoint.
pub struct TradesParams {
    /// The parameters set so far.
    pub params: ParamMap,
}

impl TradesParams {
    /// An empty parameter set.
    pub fn new() -> (r: TradesParams)
        ensures
            r.params@.len() == 0,
    {
        TradesParams { params: ParamMap::new() }
    }

    /// Filters on the exact timestamp.
    pub fn timestamp(self, value: &str) -> (r: TradesParams)
        ensures
            r.params@ == spec_set_kv(self.params@, "timestamp"@, value@),
    {
        let mut p = self;
        p.params.set("timestamp", value.to_owned());
        p
    }

    /// Filters on timestamps strictly before the value.
    pub fn timestamp_lt(self, value: &str) -> (r: TradesParams)
        ensures
            r.params@ == spec_set_kv(self.params@, "timestamp_lt"@, value@),
    {
        let mut p = self;
        p.params.set("timestamp_lt", value.to_owned());
        p
    }

    /// Filters on timestamps at or before the value.
    pub fn timestamp_lte(self, value: &str) -> (r: TradesParams)
        ensures
            r.params@ == spec_set_kv(self.params@, "timestamp_lte"@, value@),
    {
        let mut p = self;
        p.params.set("timestamp_lte", value.to_owned());
        p
    }

    /// Filters on timestamps strictly after the value.
    pub fn timestamp_gt(self, value: &str) -> (r: TradesParams)
        ensures
            r.params@ == spec_set_kv(self.params@, "timestamp_gt"@, value@),
    {
        let mut p = self;
        p.params.set("timestamp_gt", value.to_owned());
        p
    }

    /// Filters on timestamps at or after the value.
    pub fn timestamp_gte(self, value: &str) -> (r: TradesParams)
        ensures
            r.params@ == spec_set_kv(self.params@, "timestamp_gte"@, value@),
    {
        let mut p = self;
        p.params.set("timestamp_gte", value.to_owned());
        p
    }

    /// Sets the sort order field.
    pub fn order(self, value: &str) -> (r: TradesParams)
        ensures
            r.params@ == spec_set_kv(self.params@, "order"@, value@),
    {
        let mut p = self;
        p.params.set("order", value.to_owned());
        p
    }

    /// Reverses the sort.
    pub fn reverse(self, value: bool) -> (r: TradesParams)
        ensures
            r.params@ == spec_set_kv(self.params@, "reverse"@, spec_bool_chars(value)),
    {
        let mut p = self;
        p.params.set("reverse", bool_to_string(value));
        p
    }

    /// Caps the page size.
    pub fn limit(self, value: usize) -> (r: TradesParams)
        ensures
            r.params@ == spec_set_kv(self.params@, "limit"@, spec_dec_digits(value as int)),
    {
        let mut p = self;
        p.params.set("limit", u64_to_string(value as u64));
        p
    }

    /// Continues from a cursor issued by the previous page.
    pub fn cursor(self, value: &str) -> (r: TradesParams)
        ensures
            r.params@ == spec_set_kv(self.params@, "cursor"@, value@),
    {
        let mut p = self;
        p.params.set("cursor", value.to_owned());
        p
    }
}

/// Query parameters for the ticker listing endpoint.
pub struct TickersParams {
    /// The parameters set so far.
    pub params: ParamMap,
}

impl TickersParams {
    /// An empty parameter set.
    pub fn new() -> (r: TickersParams)
        ensures
            r.params@.len() == 0,
    {
        TickersParams { params: ParamMap::new() }
    }

    /// Filters on one ticker symbol.
    pub fn ticker(self, value: &str) -> (r: TickersParams)
        ensures
            r.params@ == spec_set_kv(self.params@, "ticker"@, value@),
    {
        let mut p = self;
        p.params.set("ticker", value.to_owned());
        p
    }

    /// Filters on the security type.
    pub fn security_type(self, value: &str) -> (r: TickersParams)
        ensures
            r.params@ == spec_set_kv(self.params@, "type"@, value@),
    {
        let mut p = self;
        p.params.set("type", value.to_owned());
        p
    }

    /// Filters on the market.
    pub fn market(self, value: &str) -> (r: TickersParams)
        ensures
            r.params@ == spec_set_kv(self.params@, "market"@, value@),
    {
        let mut p = self;
        p.params.set("market", value.to_owned());
        p
    }

    /// Filters on the primary exchange.
    pub fn exchange(self, value: &str) -> (r: TickersParams)
        ensures
            r.params@ == spec_set_kv(self.params@, "exchange"@, value@),
    {
        let mut p = self;
        p.params.set("exchange", value.to_owned());
        p
    }

    /// Filters on the CUSIP identifier.
    pub fn cusip(self, value: &str) -> (r: TickersParams)
        ensures
            r.params@ == spec_set_kv(self.params@, "cusip"@, value@),
    {
        let mut p = self;
        p.params.set("cusip", value.to_owned());
        p
    }

    /// Asks for the listing as of a date.
    pub fn date(self, value: &str) -> (r: TickersParams)
        ensures
            r.params@ == spec_set_kv(self.params@, "date"@, value@),
    {
        let mut p = self;
        p.params.set("date", value.to_owned());
        p
    }

    /// Filters on active versus delisted tickers.
    pub fn active(self, value: bool) -> (r: TickersParams)
        ensures
            r.params@ == spec_set_kv(self.params@, "active"@, spec_bool_chars(value)),
    {
        let mut p = self;
        p.params.set("active", bool_to_string(value));
        p
    }

    /// Sets the field to sort by.
    pub fn sort(self, value: &str) -> (r: TickersParams)
        ensures
            r.params@ == spec_set_kv(self.params@, "sort"@, value@),
    {
        let mut p = self;
        p.params.set("sort", value.to_owned());
        p
    }

    /// Sets the sort direction.
    pub fn order(self, value: &str) -> (r: TickersParams)
        ensures
            r.params@ == spec_set_kv(self.params@, "order"@, value@),
    {
        let mut p = self;
        p.params.set("order", value.to_owned());
        p
    }

    /// Caps the page size.
    pub fn limit(self, value: usize) -> (r: TickersParams)
        ensures
            r.params@ == spec_set_kv(self.params@, "limit"@, spec_dec_digits(value as int)),
    {
        let mut p = self;
        p.params.set("limit", u64_to_string(value as u64));
        p
    }

    /// Continues from a cursor issued by the previous page.
    pub fn cursor(self, value: &str) -> (r: TickersParams)
        ensures
            r.params@ == spec_set_kv(self.params@, "cursor"@, value@),
    {
        let mut p = self;
        p.params.set("cursor", value.to_owned());
        p
    }
}

/// Query parameters for the ticker details endpoint.
pub struct TickerDetailsParams {
    /// The parameters set so far.
    pub params: ParamMap,
}

impl TickerDetailsParams {
    /// An empty parameter set.
    pub fn new() -> (r: TickerDetailsParams)
        ensures
            r.params@.len() == 0,
    {
        TickerDetailsParams { params: ParamMap::new() }
    }

    /// Asks for the details as of a date.
    pub fn date(self, value: &str) -> (r: TickerDetailsParams)
        ensures
            r.params@ == spec_set_kv(self.params@, "date"@, value@),
    {
        let mut p = self;
        p.params.set("date", value.to_owned());
        p
    }
}

} // verus!
