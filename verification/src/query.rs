//! The search query and the request URL, rendered character for character.

use vstd::prelude::*;
use vstd::string::StringExecFns;

use vstd::string::StrSliceExecFns;

use crate::date::{Date, day_number, date_str, format_date, week_before, current_local_date};
use crate::text::{dec_str, hex_char, hex_of, push_char, u32_dec};

verus! {

/// The search expression for articles created on or after `boundary` with at
/// least `min_stocks` stocks: `created:>=YYYY-MM-DD+stocks:>=N`.
pub open spec fn query_text(boundary: Date, min_stocks: int) -> Seq<char> {
    "created:>="@ + date_str(boundary) + "+stocks:>="@ + dec_str(min_stocks)
}

/// Whether a character is percent-encoded inside the query of an `https`
/// URL: the controls, space, `"`, `#`, `'`, `<` and `>` — the set the WHATWG
/// URL standard encodes there.
pub open spec fn needs_query_encoding(c: char) -> bool {
    ||| (c as int) <= 0x20
    ||| (c as int) == 0x22
    ||| (c as int) == 0x23
    ||| (c as int) == 0x27
    ||| (c as int) == 0x3c
    ||| (c as int) == 0x3e
    ||| (c as int) == 0x7f
}

/// One query character as it stands in the URL: itself, or `%` and two
/// uppercase hexadecimal digits of its code.
pub open spec fn query_encoded_char(c: char) -> Seq<char> {
    if needs_query_encoding(c) {
        seq!['%', hex_char(c as int / 16), hex_char(c as int % 16)]
    } else {
        seq![c]
    }
}

/// The query percent-encoded character for character.  Characters outside
/// ASCII are passed through unchanged; every query this library builds is
/// ASCII.
pub open spec fn percent_encode_query(query: Seq<char>) -> Seq<char>
    decreases query.len(),
{
    if query.len() == 0 {
        Seq::empty()
    } else {
        percent_encode_query(query.drop_last()) + query_encoded_char(query.last())
    }
}

/// The fixed search endpoint with the percent-encoded `query` appended as
/// its one parameter.
pub open spec fn url_text(query: Seq<char>) -> Seq<char> {
    "https://qiita.com/api/v2/items?query="@ + percent_encode_query(query)
}

/// Builds the search expression for the given boundary date and threshold.
pub fn build_query(boundary: Date, min_stocks: u32) -> (r: String)
    requires
        boundary.valid(),
        0 <= boundary.year <= 9999,
    ensures
        r@ == query_text(boundary, min_stocks as int),
{
    let mut s: String = "created:>=".to_owned();
    s.append(format_date(boundary).as_str());
    s.append("+stocks:>=");
    s.append(u32_dec(min_stocks).as_str());
    proof {
        assert(s@ =~= query_text(boundary, min_stocks as int));
    }
    s
}

/// Appends the query, percent-encoded, to the fixed search endpoint.
pub fn build_url(query: &str) -> (r: String)
    ensures
        r@ == url_text(query@),
{
    let mut s: String = "https://qiita.com/api/v2/items?query=".to_owned();
    let n = query.unicode_len();
    let mut i: usize = 0;
    proof {
        assert(s@ =~= "https://qiita.com/api/v2/items?query="@ + percent_encode_query(
            query@.take(0),
        ));
    }
    while i < n
        invariant
            n == query@.len(),
            i <= n,
            s@ == "https://qiita.com/api/v2/items?query="@ + percent_encode_query(
                query@.take(i as int),
            ),
        decreases n - i,
    {
        let c = query.get_char(i);
        let u = c as u32;
        if u <= 0x20 || u == 0x22 || u == 0x23 || u == 0x27 || u == 0x3c || u == 0x3e || u
            == 0x7f {
            push_char(&mut s, '%');
            push_char(&mut s, hex_of(u / 16));
            push_char(&mut s, hex_of(u % 16));
        } else {
            push_char(&mut s, c);
        }
        proof {
            assert(query@.take(i as int + 1).drop_last() =~= query@.take(i as int));
            assert(query@.take(i as int + 1).last() == query@[i as int]);
            assert(s@ =~= "https://qiita.com/api/v2/items?query="@ + percent_encode_query(
                query@.take(i as int + 1),
            ));
        }
        i = i + 1;
    }
    proof {
        assert(query@.take(n as int) =~= query@);
    }
    s
}

/// The boundary date one week before `today`, and the search expression for
/// it: articles created in the last seven days with at least `min_stocks`
/// stocks.
pub fn query_for(today: Date, min_stocks: u32) -> (r: (Date, String))
    requires
        today.valid(),
        1 <= today.year <= 9999,
    ensures
        r.0.valid(),
        0 <= r.0.year <= today.year,
        day_number(r.0) == day_number(today) - 7,
        r.1@ == query_text(r.0, min_stocks as int),
{
    let boundary = week_before(today);
    let q = build_query(boundary, min_stocks);
    (boundary, q)
}

/// Builds the search expression for the given current date: that date, the
/// boundary one week before it, and the query for the boundary.  Succeeds
/// exactly when the year fits the four digits of `YYYY-MM-DD`, 1 through
/// 9999; any other year gives `None`.
pub fn query_for_date(today: Date, min_stocks: u32) -> (r: Option<(Date, Date, String)>)
    requires
        today.valid(),
    ensures
        r is Some <==> 1 <= today.year <= 9999,
        match r {
            Some(t) => {
                &&& t.0 == today
                &&& t.1.valid()
                &&& 0 <= t.1.year <= today.year
                &&& day_number(t.1) == day_number(today) - 7
                &&& t.2@ == query_text(t.1, min_stocks as int)
            },
            None => true,
        },
{
    if 1 <= today.year && today.year <= 9999 {
        let (boundary, q) = query_for(today, min_stocks);
        Some((today, boundary, q))
    } else {
        None
    }
}

/// Reads the clock and hands the date to `query_for_date`, whose contract
/// ties `None` to the years that `YYYY-MM-DD` cannot carry.  Of the clock's
/// date itself nothing can be promised here.
pub fn todays_query(min_stocks: u32) -> (r: Option<(Date, Date, String)>)
    ensures
        match r {
            Some(t) => {
                &&& t.0.valid()
                &&& 1 <= t.0.year <= 9999
                &&& t.1.valid()
                &&& 0 <= t.1.year <= t.0.year
                &&& day_number(t.1) == day_number(t.0) - 7
                &&& t.2@ == query_text(t.1, min_stocks as int)
            },
            None => true,
        },
{
    let today = current_local_date();
    query_for_date(today, min_stocks)
}

} // verus!
