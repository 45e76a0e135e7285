//! Reading the result records out of a fetched page.
//!
//! A page is parsed into a tree. Every element that matches `.gs_ri` is a
//! container. In each container the first element that matches `.gs_rt` is
//! the title, the first that matches `.gs_a` the author line, the first that
//! matches `.gs_rs` the summary, and the first `a` holds the link in its
//! `href`. The text of an element is the text nodes below it, one after the
//! other, with nothing trimmed.

use vstd::prelude::*;

use scraper::error::SelectorErrorKind;
use scraper::{ElementRef, Html, Selector};

use crate::error::Error;
use crate::markup::{
    attribute, document_matches, element_attr, element_matches, fits_the_parser, parse_document,
    parse_selector, parsed_document, parsed_selector, select_in_document, select_in_element,
    text_nodes, text_nodes_of, PAGE_LIMIT,
};
use crate::record::{
    assemble_records, chars_of, kept, lemma_records_keep_order, records_of, Container,
    ContainerView, ResultRecord, ScholarResult,
};
use crate::text::{join_parts, joined};

verus! {

/// The selector that a text stands for, where the text is one.
pub open spec fn selector_of(css: Seq<char>) -> Selector {
    match parsed_selector(css) {
        Ok(selector) => selector,
        Err(_) => arbitrary(),
    }
}

/// The selector of the containers.
pub open spec fn article_selector() -> Selector {
    selector_of(".gs_ri"@)
}

/// The selector of the title within a container.
pub open spec fn title_selector() -> Selector {
    selector_of(".gs_rt"@)
}

/// The selector of the summary within a container.
pub open spec fn abstract_selector() -> Selector {
    selector_of(".gs_rs"@)
}

/// The selector of the author line within a container.
pub open spec fn author_selector() -> Selector {
    selector_of(".gs_a"@)
}

/// The selector of the links within a container.
pub open spec fn link_selector() -> Selector {
    selector_of("a"@)
}

/// Whether the parser takes each of the five selector texts.
pub open spec fn selectors_accepted() -> bool {
    &&& parsed_selector(".gs_ri"@) is Ok
    &&& parsed_selector(".gs_rt"@) is Ok
    &&& parsed_selector(".gs_rs"@) is Ok
    &&& parsed_selector(".gs_a"@) is Ok
    &&& parsed_selector("a"@) is Ok
}

/// The text of the first element below `element` that matches `selector`:
/// its text nodes one after the other. `None` where nothing matches.
pub open spec fn first_text(element: ElementRef<'_>, selector: Selector) -> Option<Seq<char>> {
    let found = element_matches(element, selector);
    if found.len() > 0 {
        Some(joined(text_nodes(found[0])))
    } else {
        None
    }
}

/// The `href` of the first element below `element` that matches `selector`.
/// `None` where nothing matches, and where the first match has no `href`.
pub open spec fn first_address(element: ElementRef<'_>, selector: Selector) -> Option<
    Seq<char>,
> {
    let found = element_matches(element, selector);
    if found.len() > 0 {
        element_attr(found[0], "href"@)
    } else {
        None
    }
}

/// What a container element holds.
pub open spec fn container_of(element: ElementRef<'_>) -> ContainerView {
    ContainerView {
        title: first_text(element, title_selector()),
        author: first_text(element, author_selector()),
        abs: first_text(element, abstract_selector()),
        link: first_address(element, link_selector()),
    }
}

/// The container elements of a document, in the order in which the parser
/// yields them.
pub open spec fn container_elements(document: &Html) -> Seq<ElementRef<'_>> {
    document_matches(document, article_selector())
}

/// What the containers of a document hold, in the order of the containers.
pub open spec fn containers_of(document: &Html) -> Seq<ContainerView> {
    Seq::new(
        container_elements(document).len(),
        |i: int| container_of(container_elements(document)[i]),
    )
}

/// The records that a page holds: those of its complete containers, in the
/// order of the containers. It is what `scrape_serialize` returns for a page
/// that fits the parser.
pub open spec fn extracted(page: Seq<char>) -> Seq<ResultRecord> {
    records_of(containers_of(&parsed_document(page)))
}

/// A page that fits the parser and has no containers holds no records.
pub proof fn lemma_no_containers_nothing_extracted(page: Seq<char>)
    requires
        fits_the_parser(page),
        container_elements(&parsed_document(page)).len() == 0,
    ensures
        extracted(page) == Seq::<ResultRecord>::empty(),
{
}

/// The records of a page that fits the parser come in the order of its
/// containers: record `i` is
/// the record of the container element at position `kept(..)[i]`, and these
/// positions ascend. There are at most as many records as containers.
pub proof fn lemma_extracted_in_document_order(page: Seq<char>)
    requires
        fits_the_parser(page),
    ensures
        extracted(page).len() <= container_elements(&parsed_document(page)).len(),
        extracted(page).len() == kept(containers_of(&parsed_document(page))).len(),
        forall|i: int|
            0 <= i < extracted(page).len() ==> {
                let at = #[trigger] kept(containers_of(&parsed_document(page)))[i];
                &&& 0 <= at < container_elements(&parsed_document(page)).len()
                &&& extracted(page)[i] == container_of(
                    container_elements(&parsed_document(page))[at],
                ).record()
            },
        forall|i: int, j: int|
            0 <= i < j < extracted(page).len() ==> kept(containers_of(&parsed_document(page)))[i]
                < kept(containers_of(&parsed_document(page)))[j],
{
    lemma_records_keep_order(containers_of(&parsed_document(page)));
}

/// A container without a link, or whose first link has no `href`, has the
/// empty text for the link of its record.
pub proof fn lemma_no_link_no_address(element: ElementRef<'_>)
    requires
        element_matches(element, link_selector()).len() == 0 || element_attr(
            element_matches(element, link_selector())[0],
            "href"@,
        ) is None,
    ensures
        container_of(element).link is None,
        container_of(element).record().link == Seq::<char>::empty(),
{
}

/// The text of the first match of a selector below an element.
fn read_text(element: &ElementRef<'_>, selector: &Selector) -> (text: Option<String>)
    ensures
        chars_of(text) == first_text(*element, *selector),
{
    let found = select_in_element(element, selector);
    if found.len() > 0 {
        let nodes = text_nodes_of(&found[0]);
        Some(join_parts(&nodes))
    } else {
        None
    }
}

/// The `href` of the first match of a selector below an element.
fn read_address(element: &ElementRef<'_>, selector: &Selector) -> (address: Option<String>)
    ensures
        chars_of(address) == first_address(*element, *selector),
{
    let found = select_in_element(element, selector);
    if found.len() > 0 {
        match attribute(&found[0], "href") {
            Some(address) => Some(String::from_str(address)),
            None => None,
        }
    } else {
        None
    }
}

/// The extraction rules, ready for use: the five selectors in parsed form.
pub struct Client {
    article: Selector,
    title: Selector,
    summary: Selector,
    author: Selector,
    link: Selector,
}

/// Parses the five selectors. Returns `None` where the parser refuses one of
/// them.
pub fn init_client() -> (client: Option<Client>)
    ensures
        client is Some <==> selectors_accepted(),
{
    let article = match parse_selector(".gs_ri") {
        Ok(selector) => selector,
        Err(_) => {
            return None;
        },
    };
    let title = match parse_selector(".gs_rt") {
        Ok(selector) => selector,
        Err(_) => {
            return None;
        },
    };
    let summary = match parse_selector(".gs_rs") {
        Ok(selector) => selector,
        Err(_) => {
            return None;
        },
    };
    let author = match parse_selector(".gs_a") {
        Ok(selector) => selector,
        Err(_) => {
            return None;
        },
    };
    let link = match parse_selector("a") {
        Ok(selector) => selector,
        Err(_) => {
            return None;
        },
    };
    Some(Client { article, title, summary, author, link })
}

impl Client {
    /// Each field holds what the parser made of its selector text.
    #[verifier::type_invariant]
    spec fn holds_the_selectors(self) -> bool {
        &&& parsed_selector(".gs_ri"@) == Ok::<Selector, SelectorErrorKind>(self.article)
        &&& parsed_selector(".gs_rt"@) == Ok::<Selector, SelectorErrorKind>(self.title)
        &&& parsed_selector(".gs_rs"@) == Ok::<Selector, SelectorErrorKind>(self.summary)
        &&& parsed_selector(".gs_a"@) == Ok::<Selector, SelectorErrorKind>(self.author)
        &&& parsed_selector("a"@) == Ok::<Selector, SelectorErrorKind>(self.link)
    }

    /// Reads the four parts of one container.
    fn read_container(&self, element: &ElementRef<'_>) -> (container: Container)
        ensures
            container@ == container_of(*element),
    {
        proof {
            use_type_invariant(self);
        }
        let title = read_text(element, &self.title);
        let link = read_address(element, &self.link);
        let abs = read_text(element, &self.summary);
        let author = read_text(element, &self.author);
        Container { title, author, abs, link }
    }

    /// Reads the containers of a document, in their order.
    fn read_containers(&self, document: &Html) -> (containers: Vec<Container>)
        ensures
            containers.deep_view() == containers_of(document),
    {
        proof {
            use_type_invariant(self);
        }
        let elements = select_in_document(document, &self.article);
        let mut containers: Vec<Container> = Vec::new();
        let mut i: usize = 0;
        while i < elements.len()
            invariant
                i <= elements.len(),
                elements@ == container_elements(document),
                containers.len() == i,
                forall|k: int| 0 <= k < i ==> (#[trigger] containers[k])@ == container_of(elements[k]),
            decreases elements.len() - i,
        {
            let container = self.read_container(&elements[i]);
            containers.push(container);
            i += 1;
        }
        assert(containers.deep_view() =~= containers_of(document));
        containers
    }

    /// Reads the records out of a page. A page of more than `PAGE_LIMIT`
    /// bytes is not parsed and is a parse error. Every other text is a page,
    /// whatever it holds: one without containers gives no records. The
    /// records are those of the complete containers, in the order of the
    /// containers.
    pub fn scrape_serialize(&self, document: String) -> (res: Result<Vec<ScholarResult>, Error>)
        ensures
            res is Err <==> !fits_the_parser(document@),
            res matches Err(e) ==> e == Error::ParseError,
            res matches Ok(records) ==> records.deep_view() == extracted(document@),
            fits_the_parser(document@) && container_elements(&parsed_document(document@)).len()
                == 0 ==> (res matches Ok(records) && records.len() == 0),
    {
        if document.as_str().as_bytes().len() > PAGE_LIMIT {
            return Err(Error::ParseError);
        }
        let tree = parse_document(document.as_str());
        let containers = self.read_containers(&tree);
        let records = assemble_records(containers);
        proof {
            if container_elements(&parsed_document(document@)).len() == 0 {
                assert(records.deep_view().len() == 0);
            }
        }
        Ok(records)
    }

    /// Goes on from the attempt to fetch a page: without a page the search
    /// ends in a connection error, and with one in what the page gives, its
    /// records or a parse error.
    pub fn scrape_fetched(&self, fetched: Option<String>) -> (res: Result<
        Vec<ScholarResult>,
        Error,
    >)
        ensures
            fetched is None ==> (res matches Err(e) && e == Error::ConnectionError),
            fetched matches Some(page) ==> (res is Err <==> !fits_the_parser(page@)),
            fetched matches Some(page) ==> (res matches Err(e) ==> e == Error::ParseError),
            fetched matches Some(page) ==> (res matches Ok(records) ==> records.deep_view()
                == extracted(page@)),
    {
        match fetched {
            Some(page) => self.scrape_serialize(page),
            None => Err(Error::ConnectionError),
        }
    }
}

/// What a search does once its URL is built or refused.
#[derive(Clone, Debug, PartialEq, Eq)]
pub enum Step {
    /// Fetch the page at this URL.
    Fetch(String),
    /// End the search with this error, without fetching anything.
    Fail(Error),
}

/// Decides how a search goes on from the attempt to build its URL: with a
/// URL the page at that URL is fetched, and without one the search ends at
/// once with the error of the query.
pub fn scrape_built(built: Result<String, Error>) -> (step: Step)
    ensures
        built matches Ok(url) ==> step == Step::Fetch(url),
        built matches Err(e) ==> step == Step::Fail(e),
{
    match built {
        Ok(url) => Step::Fetch(url),
        Err(e) => Step::Fail(e),
    }
}

} // verus!
