//! Search queries and the request URL that stands for each.
//!
//! A query is a record of one required text and twelve optional fields. Its
//! URL is the service's base address, the query text, and one `&key=value`
//! segment for each field that is set, always in the same order.

use vstd::prelude::*;

use crate::decimal::{decimal, decimal_string, digit_char};
use crate::error::Error;
use crate::text::{joined, lemma_joined_prefix, lemma_joined_take, text_of};

verus! {

/// The services a query can be sent to.
#[derive(Clone, Copy, Debug, PartialEq, Eq, Structural)]
pub enum Services {
    Scholar,
}

/// A search request to Google Scholar.
#[derive(Clone, Copy, Debug)]
pub struct ScholarArgs {
    /// `q`: the search text. Required.
    pub query: &'static str,
    /// `cites`: the id of an article, to list what cites it.
    pub cite_id: Option<&'static str>,
    /// `as_ylo`: the first year to give results from.
    pub from_year: Option<u16>,
    /// `as_yhi`: the last year to give results from.
    pub to_year: Option<u16>,
    /// `scisbd`: 0 for relevance, 1 for abstracts only, 2 for everything.
    /// Any other value counts as unset.
    pub sort_by: Option<u8>,
    /// `cluster`: the id of an article, to list all its versions. The
    /// service does not want it together with `q` or `cites`. That is not
    /// checked here: what is set is sent.
    pub cluster_id: Option<&'static str>,
    /// `hl`: the language of the interface, such as `en`.
    pub lang: Option<&'static str>,
    /// `lr`: the languages to limit the results to, such as
    /// `lang_fr|lang_en`.
    pub lang_limit: Option<&'static str>,
    /// `num`: the largest number of results to return.
    pub limit: Option<u32>,
    /// `start`: the number of results to skip.
    pub offset: Option<u32>,
    /// `safe`: whether adult content is filtered out.
    pub adult_filtering: Option<bool>,
    /// `filter`: whether similar results are included.
    pub include_similar_results: Option<bool>,
    /// `as_vis`: whether citations are included.
    pub include_citations: Option<bool>,
}

/// What a query says, as mathematical values.
pub struct Query {
    pub query: Seq<char>,
    pub cite_id: Option<Seq<char>>,
    pub from_year: Option<nat>,
    pub to_year: Option<nat>,
    pub sort_by: Option<nat>,
    pub cluster_id: Option<Seq<char>>,
    pub lang: Option<Seq<char>>,
    pub lang_limit: Option<Seq<char>>,
    pub limit: Option<nat>,
    pub offset: Option<nat>,
    pub adult_filtering: Option<bool>,
    pub include_similar_results: Option<bool>,
    pub include_citations: Option<bool>,
}

/// The number that an optional 32-bit field holds.
pub open spec fn number_of(value: Option<u32>) -> Option<nat> {
    match value {
        Some(n) => Some(n as nat),
        None => None,
    }
}

/// The number that an optional year holds.
pub open spec fn year_of(value: Option<u16>) -> Option<nat> {
    match value {
        Some(n) => Some(n as nat),
        None => None,
    }
}

/// The number that an optional sort mode holds.
pub open spec fn mode_of(value: Option<u8>) -> Option<nat> {
    match value {
        Some(n) => Some(n as nat),
        None => None,
    }
}

impl View for ScholarArgs {
    type V = Query;

    open spec fn view(&self) -> Query {
        Query {
            query: self.query@,
            cite_id: text_of(self.cite_id),
            from_year: year_of(self.from_year),
            to_year: year_of(self.to_year),
            sort_by: mode_of(self.sort_by),
            cluster_id: text_of(self.cluster_id),
            lang: text_of(self.lang),
            lang_limit: text_of(self.lang_limit),
            limit: number_of(self.limit),
            offset: number_of(self.offset),
            adult_filtering: self.adult_filtering,
            include_similar_results: self.include_similar_results,
            include_citations: self.include_citations,
        }
    }
}

/// The address that the queries of a service are appended to.
pub open spec fn base_url(service: Services) -> Seq<char> {
    match service {
        Services::Scholar => "https://scholar.google.com/scholar?"@,
    }
}

/// The segment of a text field: the key and the text as it is, or nothing
/// where the field is unset.
pub open spec fn text_segment(key: Seq<char>, value: Option<Seq<char>>) -> Seq<char> {
    match value {
        Some(v) => key + v,
        None => Seq::empty(),
    }
}

/// The segment of a numeric field: the key and the number in decimal, or
/// nothing where the field is unset.
pub open spec fn number_segment(key: Seq<char>, value: Option<nat>) -> Seq<char> {
    match value {
        Some(n) => key + decimal(n),
        None => Seq::empty(),
    }
}

/// The segment of a yes-or-no field: the key and one of two words, or
/// nothing where the field is unset.
pub open spec fn choice_segment(
    key: Seq<char>,
    value: Option<bool>,
    yes: Seq<char>,
    no: Seq<char>,
) -> Seq<char> {
    match value {
        Some(b) => key + if b {
            yes
        } else {
            no
        },
        None => Seq::empty(),
    }
}

/// The sort mode that is sent: one of 0, 1 and 2. Any other value is
/// treated as if the field were unset.
pub open spec fn sent_mode(sort_by: Option<nat>) -> Option<nat> {
    match sort_by {
        Some(m) => if m < 3 {
            Some(m)
        } else {
            None
        },
        None => None,
    }
}

/// The number of optional fields, and so of segments.
pub open spec fn segment_count() -> int {
    12
}

impl Query {
    /// A query is valid when its text is not empty.
    pub open spec fn valid(self) -> bool {
        self.query.len() > 0
    }

    /// The start of every URL: the base address and the query text.
    pub open spec fn head(self) -> Seq<char> {
        base_url(Services::Scholar) + "q="@ + self.query
    }

    /// The segments of the optional fields, in the order in which they are
    /// sent. The segment of an unset field is empty.
    pub open spec fn segments(self) -> Seq<Seq<char>> {
        seq![
            text_segment("&cites="@, self.cite_id),
            number_segment("&as_ylo="@, self.from_year),
            number_segment("&as_yhi="@, self.to_year),
            number_segment("&scisbd="@, sent_mode(self.sort_by)),
            text_segment("&cluster="@, self.cluster_id),
            text_segment("&hl="@, self.lang),
            text_segment("&lr="@, self.lang_limit),
            number_segment("&num="@, self.limit),
            number_segment("&start="@, self.offset),
            choice_segment("&safe="@, self.adult_filtering, "active"@, "off"@),
            choice_segment("&filter="@, self.include_similar_results, "1"@, "0"@),
            choice_segment("&as_vis="@, self.include_citations, "1"@, "0"@),
        ]
    }

    /// The request URL of a valid query.
    pub open spec fn url(self) -> Seq<char> {
        self.head() + joined(self.segments())
    }

    /// Where segment `k` starts in the URL. For `k == segment_count()` this
    /// is the length of the URL.
    pub open spec fn segment_start(self, k: int) -> nat {
        self.head().len() + joined(self.segments().take(k)).len()
    }
}

/// Part `k` stands in the joined text right after the parts before it.
pub proof fn lemma_joined_part(parts: Seq<Seq<char>>, k: int)
    requires
        0 <= k < parts.len(),
    ensures
        joined(parts.take(k + 1)).len() == joined(parts.take(k)).len() + parts[k].len(),
        joined(parts.take(k + 1)).len() <= joined(parts).len(),
        joined(parts).subrange(
            joined(parts.take(k)).len() as int,
            joined(parts.take(k + 1)).len() as int,
        ) == parts[k],
{
    let before = joined(parts.take(k));
    let through = joined(parts.take(k + 1));
    lemma_joined_take(parts, k);
    lemma_joined_prefix(parts, k + 1);
    assert(joined(parts).subrange(before.len() as int, through.len() as int) =~= joined(
        parts,
    ).take(through.len() as int).subrange(before.len() as int, through.len() as int));
    assert(through.subrange(before.len() as int, through.len() as int) =~= parts[k]);
}

/// The same query gives the same URL, character for character and byte for
/// byte: the URL depends on what the query says and on nothing else.
pub proof fn lemma_url_is_determined(
    one: ScholarArgs,
    other: ScholarArgs,
    first: String,
    second: String,
)
    requires
        one@ == other@,
        first@ == one@.url(),
        second@ == other@.url(),
    ensures
        one@.valid() == other@.valid(),
        first@ == second@,
        vstd::utf8::encode_utf8(first@) == vstd::utf8::encode_utf8(second@),
{
}

/// The segments stand in the URL in their fixed order, whichever fields are
/// set: segment `k` fills the URL from `segment_start(k)` up to
/// `segment_start(k + 1)`, the first segment starts where the head ends, and
/// the last one ends where the URL ends.
pub proof fn lemma_segment_order(query: Query, k: int)
    requires
        0 <= k < segment_count(),
    ensures
        query.segments().len() == segment_count(),
        query.url().take(query.head().len() as int) == query.head(),
        query.segment_start(0) == query.head().len(),
        query.segment_start(segment_count()) == query.url().len(),
        query.segment_start(k + 1) == query.segment_start(k) + query.segments()[k].len(),
        query.segment_start(k + 1) <= query.url().len(),
        query.url().subrange(query.segment_start(k) as int, query.segment_start(k + 1) as int)
            == query.segments()[k],
{
    let parts = query.segments();
    let head = query.head();
    lemma_joined_part(parts, k);
    assert(parts.take(0) =~= Seq::<Seq<char>>::empty());
    assert(parts.take(12) =~= parts);
    assert(query.url().take(head.len() as int) =~= head);
    assert(query.url().subrange(
        query.segment_start(k) as int,
        query.segment_start(k + 1) as int,
    ) =~= joined(parts).subrange(
        joined(parts.take(k)).len() as int,
        joined(parts.take(k + 1)).len() as int,
    ));
}

/// A segment is empty exactly where nothing is sent for its field: where the
/// field is unset, and for the sort mode also where it is 3 or more.
pub proof fn lemma_unset_fields_leave_no_trace(query: Query)
    ensures
        query.segments()[0].len() == 0 <==> query.cite_id is None,
        query.segments()[1].len() == 0 <==> query.from_year is None,
        query.segments()[2].len() == 0 <==> query.to_year is None,
        query.segments()[3].len() == 0 <==> sent_mode(query.sort_by) is None,
        query.segments()[4].len() == 0 <==> query.cluster_id is None,
        query.segments()[5].len() == 0 <==> query.lang is None,
        query.segments()[6].len() == 0 <==> query.lang_limit is None,
        query.segments()[7].len() == 0 <==> query.limit is None,
        query.segments()[8].len() == 0 <==> query.offset is None,
        query.segments()[9].len() == 0 <==> query.adult_filtering is None,
        query.segments()[10].len() == 0 <==> query.include_similar_results is None,
        query.segments()[11].len() == 0 <==> query.include_citations is None,
{
    reveal_strlit("&cites=");
    reveal_strlit("&as_ylo=");
    reveal_strlit("&as_yhi=");
    reveal_strlit("&scisbd=");
    reveal_strlit("&cluster=");
    reveal_strlit("&hl=");
    reveal_strlit("&lr=");
    reveal_strlit("&num=");
    reveal_strlit("&start=");
    reveal_strlit("&safe=");
    reveal_strlit("&filter=");
    reveal_strlit("&as_vis=");
}

/// The sort modes 0, 1 and 2 are sent as that one digit. Any other mode is
/// left out altogether: the URL is that of the query without a sort mode.
pub proof fn lemma_sort_mode_gating(query: Query)
    requires
        query.sort_by is Some,
    ensures
        query.sort_by->0 < 3 ==> query.segments()[3] == "&scisbd="@ + seq![
            digit_char(query.sort_by->0),
        ],
        query.sort_by->0 >= 3 ==> query.segments()[3] == Seq::<char>::empty(),
        query.sort_by->0 >= 3 ==> query.url() == (Query { sort_by: None, ..query }).url(),
{
    let unsorted = Query { sort_by: None, ..query };
    if query.sort_by->0 >= 3 {
        assert(query.segments() =~= unsorted.segments());
    }
}

/// The base address of a service.
pub fn get_base_url<'a>(service: Services) -> (url: &'a str)
    ensures
        url@ == base_url(service),
{
    match service {
        Services::Scholar => "https://scholar.google.com/scholar?",
    }
}

/// Appends the segment of a text field.
fn push_text(url: &mut String, key: &str, value: Option<&str>)
    ensures
        final(url)@ == old(url)@ + text_segment(key@, text_of(value)),
{
    match value {
        Some(v) => {
            url.append(key);
            url.append(v);
            assert(url@ =~= old(url)@ + (key@ + v@));
        },
        None => {
            assert(url@ =~= old(url)@ + Seq::<char>::empty());
        },
    }
}

/// Appends the segment of a numeric field.
fn push_number(url: &mut String, key: &str, value: Option<u32>)
    ensures
        final(url)@ == old(url)@ + number_segment(key@, number_of(value)),
{
    match value {
        Some(n) => {
            let digits = decimal_string(n);
            url.append(key);
            url.append(digits.as_str());
            assert(url@ =~= old(url)@ + (key@ + decimal(n as nat)));
        },
        None => {
            assert(url@ =~= old(url)@ + Seq::<char>::empty());
        },
    }
}

/// Appends the segment of a yes-or-no field.
fn push_choice(url: &mut String, key: &str, value: Option<bool>, yes: &str, no: &str)
    ensures
        final(url)@ == old(url)@ + choice_segment(key@, value, yes@, no@),
{
    match value {
        Some(b) => {
            url.append(key);
            if b {
                url.append(yes);
            } else {
                url.append(no);
            }
            assert(url@ =~= old(url)@ + (key@ + if b {
                yes@
            } else {
                no@
            }));
        },
        None => {
            assert(url@ =~= old(url)@ + Seq::<char>::empty());
        },
    }
}

/// A year as a 32-bit number.
fn widen_year(value: Option<u16>) -> (wide: Option<u32>)
    ensures
        number_of(wide) == year_of(value),
{
    match value {
        Some(y) => Some(y as u32),
        None => None,
    }
}

/// The sort mode to send, as a 32-bit number: the mode where it is below 3.
fn mode_to_send(value: Option<u8>) -> (wide: Option<u32>)
    ensures
        number_of(wide) == sent_mode(mode_of(value)),
{
    match value {
        Some(m) => if m < 3 {
            Some(m as u32)
        } else {
            None
        },
        None => None,
    }
}

/// What a service needs to know of a search request.
pub trait Args {
    /// The service that the request goes to.
    fn get_service(&self) -> Services;

    /// The URL that stands for the request, or why there is none.
    fn get_url(&self) -> Result<String, Error>;

    /// The largest number of results asked for, 0 where none is set.
    fn get_limit(&self) -> usize;
}

impl Args for ScholarArgs {
    fn get_service(&self) -> (service: Services)
        ensures
            service == Services::Scholar,
    {
        Services::Scholar
    }

    fn get_limit(&self) -> (limit: usize)
        ensures
            limit == match self.limit {
                Some(n) => n as usize,
                None => 0usize,
            },
    {
        match self.limit {
            Some(n) => n as usize,
            None => 0usize,
        }
    }

    /// Fails on an empty query text and on nothing else. Otherwise the URL
    /// is the base address, `q=` and the query text, followed by the
    /// segments of the fields that are set, in their fixed order. No text is
    /// escaped, and no combination of fields is refused: `cluster_id` is sent
    /// beside the query text and `cite_id` if it is set.
    fn get_url(&self) -> (res: Result<String, Error>)
        ensures
            res is Err <==> !self@.valid(),
            res matches Err(e) ==> e == Error::RequiredFieldError,
            res matches Ok(url) ==> url@ == self@.url(),
    {
        if self.query.is_empty() {
            return Err(Error::RequiredFieldError);
        }
        let mut url = String::from_str(get_base_url(self.get_service()));
        url.append("q=");
        url.append(self.query);
        let ghost head = self@.head();
        let ghost parts = self@.segments();
        assert(url@ =~= head + joined(parts.take(0))) by {
            assert(parts.take(0) =~= Seq::<Seq<char>>::empty());
        }
        push_text(&mut url, "&cites=", self.cite_id);
        proof {
            append_part(head, parts, 0, url@);
        }
        push_number(&mut url, "&as_ylo=", widen_year(self.from_year));
        proof {
            append_part(head, parts, 1, url@);
        }
        push_number(&mut url, "&as_yhi=", widen_year(self.to_year));
        proof {
            append_part(head, parts, 2, url@);
        }
        push_number(&mut url, "&scisbd=", mode_to_send(self.sort_by));
        proof {
            append_part(head, parts, 3, url@);
        }
        push_text(&mut url, "&cluster=", self.cluster_id);
        proof {
            append_part(head, parts, 4, url@);
        }
        push_text(&mut url, "&hl=", self.lang);
        proof {
            append_part(head, parts, 5, url@);
        }
        push_text(&mut url, "&lr=", self.lang_limit);
        proof {
            append_part(head, parts, 6, url@);
        }
        push_number(&mut url, "&num=", self.limit);
        proof {
            append_part(head, parts, 7, url@);
        }
        push_number(&mut url, "&start=", self.offset);
        proof {
            append_part(head, parts, 8, url@);
        }
        push_choice(&mut url, "&safe=", self.adult_filtering, "active", "off");
        proof {
            append_part(head, parts, 9, url@);
        }
        push_choice(&mut url, "&filter=", self.include_similar_results, "1", "0");
        proof {
            append_part(head, parts, 10, url@);
        }
        push_choice(&mut url, "&as_vis=", self.include_citations, "1", "0");
        proof {
            append_part(head, parts, 11, url@);
            assert(parts.take(12) =~= parts);
        }
        Ok(url)
    }
}

/// A text that holds the head and the first `k` parts, once part `k` is
/// appended, holds the head and the first `k + 1` parts.
proof fn append_part(head: Seq<char>, parts: Seq<Seq<char>>, k: int, text: Seq<char>)
    requires
        0 <= k < parts.len(),
        text == head + joined(parts.take(k)) + parts[k],
    ensures
        text == head + joined(parts.take(k + 1)),
{
    lemma_joined_take(parts, k);
    assert(head + joined(parts.take(k)) + parts[k] =~= head + (joined(parts.take(k)) + parts[k]));
}

} // verus!
