use scholar::client::{init_client, scrape_built, Client, Step};
use scholar::markup::PAGE_LIMIT;
use scholar::error::Error;
use scholar::record::{assemble_record, assemble_records, Container, ScholarResult};
use scholar::text::join_parts;

fn client() -> Client {
    match init_client() {
        Some(client) => client,
        None => panic!("the selectors were refused"),
    }
}

fn record(title: &str, author: &str, abs: &str, link: &str) -> ScholarResult {
    ScholarResult {
        title: String::from(title),
        author: String::from(author),
        abs: String::from(abs),
        link: String::from(link),
    }
}

fn container(
    title: Option<&str>,
    author: Option<&str>,
    abs: Option<&str>,
    link: Option<&str>,
) -> Container {
    Container {
        title: title.map(String::from),
        author: author.map(String::from),
        abs: abs.map(String::from),
        link: link.map(String::from),
    }
}

fn entry(title: &str, author: &str, abs: &str, link: &str) -> String {
    format!(
        "<div class=\"gs_r\"><div class=\"gs_ri\">\
         <h3 class=\"gs_rt\"><a href=\"{}\">{}</a></h3>\
         <div class=\"gs_a\">{}</div>\
         <div class=\"gs_rs\">{}</div>\
         </div></div>",
        link, title, author, abs
    )
}

fn page(body: &str) -> String {
    format!(
        "<!DOCTYPE html><html><head><title>results</title></head><body>{}</body></html>",
        body
    )
}

#[test]
fn the_selectors_are_accepted() {
    assert!(init_client().is_some());
}

#[test]
fn three_containers_give_three_records_in_order() {
    let body = format!(
        "{}{}{}",
        entry("First", "A Author - Venue, 2001", "one", "https://example.org/1"),
        entry("Second", "B Author - Venue, 2002", "two", "https://example.org/2"),
        entry("Third", "C Author - Venue, 2003", "three", "https://example.org/3"),
    );
    let found = client().scrape_serialize(page(&body));
    assert_eq!(
        found,
        Ok(vec![
            record("First", "A Author - Venue, 2001", "one", "https://example.org/1"),
            record("Second", "B Author - Venue, 2002", "two", "https://example.org/2"),
            record("Third", "C Author - Venue, 2003", "three", "https://example.org/3"),
        ])
    );
}

#[test]
fn a_container_without_a_link_has_an_empty_link() {
    let body = "<div class=\"gs_ri\">\
                <h3 class=\"gs_rt\">Plain title</h3>\
                <div class=\"gs_a\">Someone</div>\
                <div class=\"gs_rs\">Some summary</div>\
                </div>";
    let found = client().scrape_serialize(page(body));
    assert_eq!(
        found,
        Ok(vec![record("Plain title", "Someone", "Some summary", "")])
    );
}

#[test]
fn a_first_link_without_an_address_gives_an_empty_link() {
    let body = "<div class=\"gs_ri\">\
                <h3 class=\"gs_rt\"><a name=\"x\">Title</a></h3>\
                <div class=\"gs_a\">Someone <a href=\"https://example.org/late\">x</a></div>\
                <div class=\"gs_rs\">Summary</div>\
                </div>";
    let found = client().scrape_serialize(page(body));
    assert_eq!(found, Ok(vec![record("Title", "Someone x", "Summary", "")]));
}

#[test]
fn a_missing_link_does_not_stop_the_others() {
    let body = format!(
        "{}<div class=\"gs_ri\"><h3 class=\"gs_rt\">Bare</h3>\
         <div class=\"gs_a\">N</div><div class=\"gs_rs\">S</div></div>{}",
        entry("Before", "A", "a", "https://example.org/a"),
        entry("After", "B", "b", "https://example.org/b"),
    );
    let found = client().scrape_serialize(page(&body));
    assert_eq!(
        found,
        Ok(vec![
            record("Before", "A", "a", "https://example.org/a"),
            record("Bare", "N", "S", ""),
            record("After", "B", "b", "https://example.org/b"),
        ])
    );
}

#[test]
fn an_empty_text_holds_no_records() {
    assert_eq!(client().scrape_serialize(String::new()), Ok(vec![]));
}

#[test]
fn a_page_without_containers_holds_no_records() {
    let body = "<div class=\"other\"><h3 class=\"gs_rt\">Title</h3>\
                <div class=\"gs_a\">A</div><div class=\"gs_rs\">S</div></div>";
    assert_eq!(client().scrape_serialize(page(body)), Ok(vec![]));
}

#[test]
fn text_that_is_no_markup_holds_no_records() {
    assert_eq!(
        client().scrape_serialize(String::from("<<<< not > markup &&& </div")),
        Ok(vec![])
    );
    assert_eq!(
        client().scrape_serialize(String::from("just words, no tags")),
        Ok(vec![])
    );
}

#[test]
fn a_container_without_a_title_is_skipped() {
    let body = format!(
        "{}<div class=\"gs_ri\"><div class=\"gs_a\">N</div>\
         <div class=\"gs_rs\">S</div><a href=\"https://example.org/x\">x</a></div>{}",
        entry("Before", "A", "a", "https://example.org/a"),
        entry("After", "B", "b", "https://example.org/b"),
    );
    let found = client().scrape_serialize(page(&body));
    assert_eq!(
        found,
        Ok(vec![
            record("Before", "A", "a", "https://example.org/a"),
            record("After", "B", "b", "https://example.org/b"),
        ])
    );
}

#[test]
fn a_container_without_an_author_line_is_skipped() {
    let body = "<div class=\"gs_ri\"><h3 class=\"gs_rt\"><a href=\"u\">T</a></h3>\
                <div class=\"gs_rs\">S</div></div>";
    assert_eq!(client().scrape_serialize(page(body)), Ok(vec![]));
}

#[test]
fn a_container_without_a_summary_is_skipped() {
    let body = "<div class=\"gs_ri\"><h3 class=\"gs_rt\"><a href=\"u\">T</a></h3>\
                <div class=\"gs_a\">A</div></div>";
    assert_eq!(client().scrape_serialize(page(body)), Ok(vec![]));
}

#[test]
fn text_is_taken_from_all_nodes_below_and_not_trimmed() {
    let body = "<div class=\"gs_ri\">\
                <h3 class=\"gs_rt\"><span>[PDF]</span> <a href=\"https://example.org/p\">Deep <b>learning</b> in   <i>graphs</i></a></h3>\
                <div class=\"gs_a\"><a href=\"/cit\">Y LeCun</a>, Y Bengio - nature, 2015 </div>\
                <div class=\"gs_rs\">  An <b>abstract</b> with\n a line break &amp; an entity </div>\
                </div>";
    let found = client().scrape_serialize(page(body));
    assert_eq!(
        found,
        Ok(vec![record(
            "[PDF] Deep learning in   graphs",
            "Y LeCun, Y Bengio - nature, 2015 ",
            "  An abstract with\n a line break & an entity ",
            "https://example.org/p"
        )])
    );
}

#[test]
fn the_first_match_counts() {
    let body = "<div class=\"gs_ri\">\
                <h3 class=\"gs_rt\"><a href=\"https://example.org/first\">One</a></h3>\
                <h3 class=\"gs_rt\"><a href=\"https://example.org/second\">Two</a></h3>\
                <div class=\"gs_a\">A1</div><div class=\"gs_a\">A2</div>\
                <div class=\"gs_rs\">S1</div><div class=\"gs_rs\">S2</div>\
                </div>";
    let found = client().scrape_serialize(page(body));
    assert_eq!(
        found,
        Ok(vec![record("One", "A1", "S1", "https://example.org/first")])
    );
}

#[test]
fn the_address_is_taken_as_it_stands() {
    let body = entry("T", "A", "S", "/scholar?cites=1&amp;hl=en#x y");
    let found = client().scrape_serialize(page(&body));
    assert_eq!(
        found,
        Ok(vec![record("T", "A", "S", "/scholar?cites=1&hl=en#x y")])
    );
}

#[test]
fn extracting_twice_gives_the_same_records() {
    let body = format!(
        "{}{}",
        entry("First", "A", "one", "https://example.org/1"),
        entry("Second", "B", "two", "https://example.org/2"),
    );
    let client = client();
    let first = client.scrape_serialize(page(&body));
    let second = client.scrape_serialize(page(&body));
    assert_eq!(first, second);
    assert_eq!(first.map(|records| records.len()), Ok(2));
}

#[test]
fn without_a_page_the_search_ends_in_a_connection_error() {
    assert_eq!(client().scrape_fetched(None), Err(Error::ConnectionError));
}

#[test]
fn with_a_page_the_search_ends_in_its_records() {
    let body = entry("T", "A", "S", "https://example.org/t");
    let client = client();
    assert_eq!(
        client.scrape_fetched(Some(page(&body))),
        Ok(vec![record("T", "A", "S", "https://example.org/t")])
    );
    assert_eq!(
        client.scrape_fetched(Some(page(&body))),
        client.scrape_serialize(page(&body))
    );
    assert_eq!(client.scrape_fetched(Some(String::new())), Ok(vec![]));
}

#[test]
fn a_complete_container_gives_its_record() {
    assert_eq!(
        assemble_record(container(Some("T"), Some("A"), Some("S"), Some("L"))),
        Some(record("T", "A", "S", "L"))
    );
}

#[test]
fn a_container_without_link_gives_a_record_with_empty_link() {
    assert_eq!(
        assemble_record(container(Some("T"), Some("A"), Some("S"), None)),
        Some(record("T", "A", "S", ""))
    );
}

#[test]
fn an_incomplete_container_gives_no_record() {
    assert_eq!(
        assemble_record(container(None, Some("A"), Some("S"), Some("L"))),
        None
    );
    assert_eq!(
        assemble_record(container(Some("T"), None, Some("S"), Some("L"))),
        None
    );
    assert_eq!(
        assemble_record(container(Some("T"), Some("A"), None, Some("L"))),
        None
    );
    assert_eq!(assemble_record(container(None, None, None, None)), None);
}

#[test]
fn empty_texts_are_texts() {
    assert_eq!(
        assemble_record(container(Some(""), Some(""), Some(""), Some(""))),
        Some(record("", "", "", ""))
    );
}

#[test]
fn records_keep_the_order_of_their_containers() {
    let containers = vec![
        container(Some("1"), Some("a"), Some("x"), Some("l1")),
        container(None, Some("b"), Some("y"), Some("l2")),
        container(Some("3"), Some("c"), Some("z"), None),
        container(Some("4"), Some("d"), None, Some("l4")),
        container(Some("5"), Some("e"), Some("v"), Some("l5")),
    ];
    assert_eq!(
        assemble_records(containers),
        vec![
            record("1", "a", "x", "l1"),
            record("3", "c", "z", ""),
            record("5", "e", "v", "l5"),
        ]
    );
}

#[test]
fn no_containers_give_no_records() {
    assert_eq!(assemble_records(vec![]), vec![]);
}

#[test]
fn only_incomplete_containers_give_no_records() {
    let containers = vec![
        container(None, Some("b"), Some("y"), Some("l2")),
        container(Some("4"), Some("d"), None, None),
    ];
    assert_eq!(assemble_records(containers), vec![]);
}

#[test]
fn parts_are_joined_as_they_are() {
    assert_eq!(join_parts(&vec![]), "");
    assert_eq!(join_parts(&vec!["a"]), "a");
    assert_eq!(join_parts(&vec!["ab", "", " c ", "d"]), "ab c d");
}

#[test]
fn a_page_over_the_limit_is_a_parse_error() {
    let page = " ".repeat(PAGE_LIMIT + 1);
    assert_eq!(client().scrape_serialize(page), Err(Error::ParseError));
}

#[test]
fn a_fetched_page_over_the_limit_is_a_parse_error() {
    let page = "<div class=\"gs_ri\">".repeat(PAGE_LIMIT / 19 + 1);
    assert!(page.len() > PAGE_LIMIT);
    assert_eq!(
        client().scrape_fetched(Some(page)),
        Err(Error::ParseError)
    );
}

#[test]
fn the_limit_is_a_third_of_two_to_the_thirtieth() {
    assert_eq!(PAGE_LIMIT, 357913941);
    assert_eq!(PAGE_LIMIT, (1usize << 30) / 3);
}

#[test]
fn the_limit_counts_bytes() {
    let mut body = String::from("<p>");
    while body.len() < 3_000_000 {
        body.push_str("\u{e9}\u{4e16}\u{1f600} ");
    }
    assert!(body.chars().count() < body.len());
    assert_eq!(client().scrape_serialize(body), Ok(vec![]));
}

#[test]
fn a_nul_byte_in_an_address_becomes_the_replacement_character() {
    let body = "<div class=\"gs_ri\"><h3 class=\"gs_rt\"><a href=\"a\u{0}b\">T</a></h3>\
                <div class=\"gs_a\">A</div><div class=\"gs_rs\">S</div></div>";
    let found = client().scrape_serialize(page(body));
    assert_eq!(found, Ok(vec![record("T", "A", "S", "a\u{fffd}b")]));
}

#[test]
fn a_nul_byte_in_a_text_area_becomes_the_replacement_character() {
    let body = "<div class=\"gs_ri\"><textarea class=\"gs_rt\">a\u{0}b</textarea>\
                <div class=\"gs_a\">A</div><div class=\"gs_rs\">S</div></div>";
    let found = client().scrape_serialize(page(body));
    assert_eq!(found, Ok(vec![record("a\u{fffd}b", "A", "S", "")]));
}

#[test]
fn a_long_run_of_nul_bytes_is_read() {
    let mut body = String::from("<div class=\"gs_ri\"><h3 class=\"gs_rt\"><a href=\"");
    body.push_str(&"\u{0}".repeat(2_000_000));
    body.push_str("\">T</a></h3><div class=\"gs_a\">A</div><div class=\"gs_rs\">S</div></div>");
    let found = client().scrape_serialize(page(&body));
    match found {
        Ok(records) => {
            assert_eq!(records.len(), 1);
            assert_eq!(records[0].link.len(), 6_000_000);
            assert_eq!(records[0].title, "T");
        }
        Err(_) => panic!("the page was refused"),
    }
}

#[test]
fn a_built_url_is_fetched() {
    assert_eq!(
        scrape_built(Ok(String::from("https://scholar.google.com/scholar?q=x"))),
        Step::Fetch(String::from("https://scholar.google.com/scholar?q=x"))
    );
}

#[test]
fn a_refused_query_ends_the_search() {
    assert_eq!(
        scrape_built(Err(Error::RequiredFieldError)),
        Step::Fail(Error::RequiredFieldError)
    );
    assert_eq!(
        scrape_built(Err(Error::InvalidServiceError)),
        Step::Fail(Error::InvalidServiceError)
    );
}
