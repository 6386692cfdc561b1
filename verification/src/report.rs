//! Article records, the popularity sort, and the exact text of the printed
//! report and of the error line.

use vstd::prelude::*;
use vstd::multiset::Multiset;
use vstd::string::StringExecFns;

use crate::text::{dec_str, u32_dec};

verus! {

/// One article returned by the search, reduced to what the report shows.
#[derive(Debug)]
pub struct Article {
    pub title: String,
    pub stocks_count: u32,
    pub url: String,
}

/// The stock counts never grow from one entry to a later one.
pub open spec fn sorted_desc(s: Seq<Article>) -> bool {
    forall|i: int, j: int|
        0 <= i <= j < s.len() ==> #[trigger] s[i].stocks_count >= #[trigger] s[j].stocks_count
}

/// Sorts the articles by stock count, most stocked first.  The result holds
/// exactly the given articles, reordered.
pub fn sort_articles_desc(items: Vec<Article>) -> (r: Vec<Article>)
    ensures
        sorted_desc(r@),
        r@.to_multiset() == items@.to_multiset(),
        r@.len() == items@.len(),
{
    broadcast use vstd::seq_lib::group_to_multiset_ensures;
    broadcast use vstd::multiset::group_multiset_axioms;

    let ghost orig: Seq<Article> = items@;
    let mut rest = items;
    let mut out: Vec<Article> = Vec::new();
    while rest.len() > 0
        invariant
            out@.to_multiset().add(rest@.to_multiset()) == orig.to_multiset(),
            out@.len() + rest@.len() == orig.len(),
            sorted_desc(out@),
            forall|i: int, j: int|
                0 <= i < out@.len() && 0 <= j < rest@.len() ==> #[trigger] out@[i].stocks_count
                    >= #[trigger] rest@[j].stocks_count,
        decreases rest@.len(),
    {
        let mut k: usize = 0;
        let mut i: usize = 1;
        while i < rest.len()
            invariant
                rest@.len() > 0,
                k < i <= rest@.len(),
                forall|j: int| 0 <= j < i ==> rest@[k as int].stocks_count
                    >= #[trigger] rest@[j].stocks_count,
            decreases rest@.len() - i,
        {
            if rest[i].stocks_count > rest[k].stocks_count {
                k = i;
            }
            i = i + 1;
        }
        let ghost rest_before: Seq<Article> = rest@;
        let ghost out_before: Seq<Article> = out@;
        let a = rest.remove(k);
        out.push(a);
        proof {
            broadcast use vstd::seq_lib::group_to_multiset_ensures;
            broadcast use vstd::multiset::group_multiset_axioms;

            assert(rest_before[k as int] == a);
            assert(rest@ == rest_before.remove(k as int));
            assert(rest_before.remove(k as int).to_multiset() == rest_before.to_multiset().remove(
                a,
            ));
            assert(out@ == out_before.push(a));
            assert(out_before.push(a).to_multiset() =~= out_before.to_multiset().insert(a));
            assert(rest_before.to_multiset().count(a) > 0) by {
                assert(rest_before.contains(a));
            }
            assert(out@.to_multiset().add(rest@.to_multiset()) =~= orig.to_multiset());
            assert forall|i2: int, j2: int|
                0 <= i2 < out@.len() && 0 <= j2 < rest@.len() implies #[trigger] out@[
                i2
            ].stocks_count >= #[trigger] rest@[j2].stocks_count by {
                assert(rest@[j2] == rest_before[if j2 < k { j2 } else { j2 + 1 }]);
                if i2 < out_before.len() {
                    assert(out@[i2] == out_before[i2]);
                } else {
                    assert(out@[i2] == a);
                }
            }
        }
    }
    proof {
        broadcast use vstd::seq_lib::group_to_multiset_ensures;
        broadcast use vstd::multiset::group_multiset_axioms;

        assert(rest@ =~= Seq::<Article>::empty());
        assert(rest@.to_multiset() =~= Multiset::<Article>::empty());
        assert(out@.to_multiset() =~= orig.to_multiset());
    }
    out
}

/// The three report lines for one article, each ended by a newline, with a
/// blank separator line after them.
pub open spec fn entry_text(a: Article) -> Seq<char> {
    "Title: "@ + a.title@ + "\n"@ + "Stocks: "@ + dec_str(a.stocks_count as int) + "\n"@ + "URL: "@
        + a.url@ + "\n\n"@
}

/// The entries for the first `n` articles of `s`, in order.
pub open spec fn entries_text(s: Seq<Article>, n: int) -> Seq<char>
    recommends
        n <= s.len(),
    decreases n,
{
    if n <= 0 {
        Seq::empty()
    } else {
        entries_text(s, n - 1) + entry_text(s[n - 1])
    }
}

/// The report's first line, naming the threshold that was used.
pub open spec fn header_text(min_stocks: int) -> Seq<char> {
    "Top popular articles (within 1 week, stocks >= "@ + dec_str(min_stocks) + "):\n"@
}

/// The whole report for the already sorted articles `s`: the fixed line for
/// an empty result, else the header followed by one entry for every article
/// but the last, least stocked one, which is left out.
pub open spec fn report_text(min_stocks: int, s: Seq<Article>) -> Seq<char> {
    if s.len() == 0 {
        "No articles found.\n"@
    } else {
        header_text(min_stocks) + entries_text(s, s.len() - 1)
    }
}

/// Renders the report for the given, already sorted articles.
pub fn render_report(min_stocks: u32, items: &Vec<Article>) -> (r: String)
    ensures
        r@ == report_text(min_stocks as int, items@),
{
    if items.len() == 0 {
        let s: String = "No articles found.\n".to_owned();
        s
    } else {
        let mut s: String = "Top popular articles (within 1 week, stocks >= ".to_owned();
        s.append(u32_dec(min_stocks).as_str());
        s.append("):\n");
        proof {
            assert(s@ =~= header_text(min_stocks as int));
        }
        let mut i: usize = 0;
        while i < items.len() - 1
            invariant
                items@.len() >= 1,
                i <= items@.len() - 1,
                s@ == header_text(min_stocks as int) + entries_text(items@, i as int),
            decreases items@.len() - 1 - i,
        {
            let a = &items[i];
            s.append("Title: ");
            s.append(a.title.as_str());
            s.append("\n");
            s.append("Stocks: ");
            s.append(u32_dec(a.stocks_count).as_str());
            s.append("\n");
            s.append("URL: ");
            s.append(a.url.as_str());
            s.append("\n\n");
            proof {
                assert(s@ =~= header_text(min_stocks as int) + entries_text(
                    items@,
                    i as int + 1,
                ));
            }
            i = i + 1;
        }
        s
    }
}

/// Sorts the articles by stock count, most stocked first, and renders the
/// report for them: some descending reordering `s` of the input is printed,
/// without its last, least stocked entry; an empty input gives the fixed
/// `No articles found.` line.
pub fn report_for(min_stocks: u32, items: Vec<Article>) -> (r: String)
    ensures
        exists|s: Seq<Article>|
            {
                &&& s.to_multiset() == items@.to_multiset()
                &&& s.len() == items@.len()
                &&& sorted_desc(s)
                &&& r@ == report_text(min_stocks as int, s)
            },
        items@.len() == 0 ==> r@ == "No articles found.\n"@,
{
    let ghost orig: Seq<Article> = items@;
    let sorted = sort_articles_desc(items);
    let r = render_report(min_stocks, &sorted);
    proof {
        let s = sorted@;
        assert(s.to_multiset() == orig.to_multiset() && s.len() == orig.len() && sorted_desc(s)
            && r@ == report_text(min_stocks as int, s));
    }
    r
}

/// Law of the report's shape: a sorted run of `n >= 1` articles is printed
/// as the header and the first `n - 1` entries, every printed entry's stock
/// count is at least the next one's, and the one omitted article never has
/// more stocks than any printed one.
pub proof fn lemma_report_shape(min_stocks: int, s: Seq<Article>)
    requires
        sorted_desc(s),
        s.len() >= 1,
    ensures
        report_text(min_stocks, s) == header_text(min_stocks) + entries_text(s, s.len() - 1),
        forall|i: int, j: int|
            0 <= i <= j < s.len() - 1 ==> #[trigger] s[i].stocks_count
                >= #[trigger] s[j].stocks_count,
        forall|i: int| 0 <= i < s.len() - 1 ==> #[trigger] s[i].stocks_count
            >= s[s.len() - 1].stocks_count,
{
}

/// The text of the error line for the given cause.
pub open spec fn error_line_text(cause: Seq<char>) -> Seq<char> {
    "Error fetching articles: "@ + cause
}

/// Why no report was produced: the response never arrived, or its body was
/// not the expected JSON.  Both carry the underlying cause as text.
#[derive(Debug)]
pub enum ReportError {
    Fetch(String),
    Decode(String),
}

impl ReportError {
    /// The underlying cause, as the error line shows it.
    pub open spec fn cause(self) -> Seq<char> {
        match self {
            ReportError::Fetch(c) => c@,
            ReportError::Decode(c) => c@,
        }
    }

    /// The single line printed on the error stream for this failure.
    pub fn line(&self) -> (r: String)
        ensures
            r@ == error_line_text(self.cause()),
    {
        let mut s: String = "Error fetching articles: ".to_owned();
        match self {
            ReportError::Fetch(c) => s.append(c.as_str()),
            ReportError::Decode(c) => s.append(c.as_str()),
        }
        s
    }
}

} // verus!
