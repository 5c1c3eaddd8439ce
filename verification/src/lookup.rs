//! The shared core of the two clients: uppercase normalization of a query,
//! the first-match scan over an exchange-information snapshot, and the fixed
//! success marker of the connectivity test.

use vstd::prelude::*;

use crate::errors::Error;
use crate::rest_model::{ExchangeInformation, Symbol};

verus! {

/// The Unicode uppercase of a string: the result of `str::to_uppercase`,
/// a function of the characters alone.
pub uninterp spec fn unicode_upper_of(s: Seq<char>) -> Seq<char>;

/// Relies on `str::to_uppercase`: the Unicode uppercase of the string,
/// depending on its characters alone (no locale).
#[verifier::external_body]
fn to_upper(s: &str) -> (r: String)
    ensures
        r@ == unicode_upper_of(s@),
{
    s.to_uppercase()
}

/// Whether a stored symbol name matches a query under the lookup's
/// case-insensitive rule: the stored name (assumed uppercase) must equal the
/// uppercased query exactly.
pub open spec fn symbol_matches(name: Seq<char>, query: Seq<char>) -> bool {
    name == unicode_upper_of(query)
}

/// The scan from position `i` on: the first entry at or after `i` whose name
/// matches the query, or `None` when the tail holds no match.
pub open spec fn find_symbol_from(symbols: Seq<Symbol>, query: Seq<char>, i: int) -> Option<Symbol>
    decreases symbols.len() - i,
{
    if i < 0 || i >= symbols.len() {
        None
    } else if symbol_matches(symbols[i].symbol@, query) {
        Some(symbols[i])
    } else {
        find_symbol_from(symbols, query, i + 1)
    }
}

/// The result of the linear scan: the first entry of `symbols` whose name
/// matches `query`, or `None` when none does.
pub open spec fn find_symbol(symbols: Seq<Symbol>, query: Seq<char>) -> Option<Symbol> {
    find_symbol_from(symbols, query, 0)
}

/// No entry of `symbols` in positions `lo..hi` matches `query`.
pub open spec fn no_match_in(symbols: Seq<Symbol>, query: Seq<char>, lo: int, hi: int) -> bool {
    forall|j: int| #![trigger symbols[j]] lo <= j < hi ==> !symbol_matches(symbols[j].symbol@, query)
}

/// Case-insensitivity of the lookup: two queries with the same uppercase
/// normal form select the same entry of any snapshot, or both select none.
/// In particular a lowercase and an uppercase spelling of one name behave
/// identically whenever that name is present.
pub proof fn lemma_find_symbol_case_insensitive(symbols: Seq<Symbol>, a: Seq<char>, b: Seq<char>)
    requires
        unicode_upper_of(a) == unicode_upper_of(b),
    ensures
        find_symbol(symbols, a) == find_symbol(symbols, b),
{
    lemma_find_from_case_insensitive(symbols, a, b, 0);
}

proof fn lemma_find_from_case_insensitive(symbols: Seq<Symbol>, a: Seq<char>, b: Seq<char>, i: int)
    requires
        unicode_upper_of(a) == unicode_upper_of(b),
    ensures
        find_symbol_from(symbols, a, i) == find_symbol_from(symbols, b, i),
    decreases symbols.len() - i,
{
    if 0 <= i && i < symbols.len() && !symbol_matches(symbols[i].symbol@, a) {
        lemma_find_from_case_insensitive(symbols, a, b, i + 1);
    }
}

/// First match wins: when the scan returns an entry, it is a matching entry
/// and no earlier position matches (so under duplicate names the earliest
/// entry is the one returned); when it returns none, no position matches.
pub proof fn lemma_find_symbol_first_match(symbols: Seq<Symbol>, query: Seq<char>)
    ensures
        match find_symbol(symbols, query) {
            Some(s) => exists|i: int|
                0 <= i < symbols.len() && symbols[i] == s && symbol_matches(
                    symbols[i].symbol@,
                    query,
                ) && #[trigger] no_match_in(symbols, query, 0, i),
            None => no_match_in(symbols, query, 0, symbols.len() as int),
        },
{
    lemma_find_from_first_match(symbols, query, 0);
}

proof fn lemma_find_from_first_match(symbols: Seq<Symbol>, query: Seq<char>, lo: int)
    requires
        0 <= lo <= symbols.len(),
    ensures
        match find_symbol_from(symbols, query, lo) {
            Some(s) => exists|i: int|
                lo <= i < symbols.len() && symbols[i] == s && symbol_matches(
                    symbols[i].symbol@,
                    query,
                ) && #[trigger] no_match_in(symbols, query, lo, i),
            None => no_match_in(symbols, query, lo, symbols.len() as int),
        },
    decreases symbols.len() - lo,
{
    if lo == symbols.len() {
    } else if symbol_matches(symbols[lo].symbol@, query) {
        assert(no_match_in(symbols, query, lo, lo));
    } else {
        lemma_find_from_first_match(symbols, query, lo + 1);
        match find_symbol_from(symbols, query, lo + 1) {
            Some(s) => {
                let i = choose|i: int|
                    lo + 1 <= i < symbols.len() && symbols[i] == s && symbol_matches(
                        symbols[i].symbol@,
                        query,
                    ) && #[trigger] no_match_in(symbols, query, lo + 1, i);
                assert forall|j: int| lo <= j < i implies !symbol_matches(
                    #[trigger] symbols[j].symbol@,
                    query,
                ) by {
                    if j != lo {
                        assert(no_match_in(symbols, query, lo + 1, i));
                    }
                }
                assert(no_match_in(symbols, query, lo, i));
            },
            None => {
                assert forall|j: int| lo <= j < symbols.len() implies !symbol_matches(
                    #[trigger] symbols[j].symbol@,
                    query,
                ) by {
                    if j != lo {
                        assert(no_match_in(symbols, query, lo + 1, symbols.len() as int));
                    }
                }
            },
        }
    }
}

/// The linear scan of the original operation: uppercase the query, walk the
/// snapshot's symbols in order, return the first entry whose stored name
/// equals the uppercased query, and fail with [`Error::UnknownSymbol`]
/// carrying the original (non-uppercased) query when no entry does.
#[verifier::loop_isolation(false)]
pub fn lookup_symbol(info: ExchangeInformation, symbol: String) -> (r: Result<Symbol, Error>)
    ensures
        match find_symbol(info.symbols@, symbol@) {
            Some(s) => r == Ok::<Symbol, Error>(s),
            None => r == Err::<Symbol, Error>(Error::UnknownSymbol(symbol)),
        },
{
    let upper = to_upper(symbol.as_str());
    let ghost orig: Seq<Symbol> = info.symbols@;
    let mut symbols = info.symbols;
    let mut i: usize = 0;
    while i < symbols.len()
        invariant
            symbols@ == orig,
            i <= orig.len(),
            find_symbol(orig, symbol@) == find_symbol_from(orig, symbol@, i as int),
        decreases symbols.len() - i,
    {
        if symbols[i].symbol == upper {
            proof {
                assert(find_symbol_from(orig, symbol@, i as int) == Some(orig[i as int]));
            }
            let found = symbols.remove(i);
            return Ok(found);
        }
        i += 1;
    }
    Err(Error::UnknownSymbol(symbol))
}

/// Outcome of the connectivity test: a successful transport call yields the
/// fixed marker `"pong"` whatever the body held; a failed one propagates the
/// transport's error unchanged.
pub fn ping_outcome(transport: Result<String, Error>) -> (r: Result<String, Error>)
    ensures
        match transport {
            Ok(_) => r matches Ok(p) && p@ == "pong"@,
            Err(e) => r == Err::<String, Error>(e),
        },
{
    match transport {
        Ok(_) => Ok("pong".to_owned()),
        Err(e) => Err(e),
    }
}

} // verus!
