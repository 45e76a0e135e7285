//! Result records, and how they are made from what a page holds.
//!
//! Each result on a page sits in a container. Of a container the library
//! reads four things: the title, the line with authors, venue and year, the
//! summary, and the address in the first link. A container that lacks one of
//! the first three is no result and is skipped; one that lacks the address
//! gives a record with an empty link.

use vstd::prelude::*;

verus! {

/// One search result.
#[derive(Clone, Debug, PartialEq, Eq)]
pub struct ScholarResult {
    /// The title, as displayed.
    pub title: String,
    /// The line with authors, venue and year, as displayed.
    pub author: String,
    /// The summary, as displayed.
    pub abs: String,
    /// The address that the result links to, empty where it has none.
    pub link: String,
}

/// What a record says, as mathematical values.
pub struct ResultRecord {
    pub title: Seq<char>,
    pub author: Seq<char>,
    pub abs: Seq<char>,
    pub link: Seq<char>,
}

/// What was found in one container of a page. `None` stands for a part that
/// the container does not have.
#[derive(Clone, Debug, PartialEq, Eq)]
pub struct Container {
    pub title: Option<String>,
    pub author: Option<String>,
    pub abs: Option<String>,
    pub link: Option<String>,
}

/// What a container holds, as mathematical values.
pub struct ContainerView {
    pub title: Option<Seq<char>>,
    pub author: Option<Seq<char>>,
    pub abs: Option<Seq<char>>,
    pub link: Option<Seq<char>>,
}

/// The characters of an optional string.
pub open spec fn chars_of(value: Option<String>) -> Option<Seq<char>> {
    match value {
        Some(s) => Some(s@),
        None => None,
    }
}

impl View for ScholarResult {
    type V = ResultRecord;

    open spec fn view(&self) -> ResultRecord {
        ResultRecord {
            title: self.title@,
            author: self.author@,
            abs: self.abs@,
            link: self.link@,
        }
    }
}

impl DeepView for ScholarResult {
    type V = ResultRecord;

    open spec fn deep_view(&self) -> ResultRecord {
        self@
    }
}

impl View for Container {
    type V = ContainerView;

    open spec fn view(&self) -> ContainerView {
        ContainerView {
            title: chars_of(self.title),
            author: chars_of(self.author),
            abs: chars_of(self.abs),
            link: chars_of(self.link),
        }
    }
}

impl DeepView for Container {
    type V = ContainerView;

    open spec fn deep_view(&self) -> ContainerView {
        self@
    }
}

impl ContainerView {
    /// A container is complete when it has a title, an author line and a
    /// summary. The link is not asked for.
    pub open spec fn complete(self) -> bool {
        self.title is Some && self.author is Some && self.abs is Some
    }

    /// The record of a complete container: its three texts as they are, and
    /// its link, or the empty text where it has none.
    pub open spec fn record(self) -> ResultRecord
        recommends
            self.complete(),
    {
        ResultRecord {
            title: self.title->0,
            author: self.author->0,
            abs: self.abs->0,
            link: match self.link {
                Some(address) => address,
                None => Seq::empty(),
            },
        }
    }
}

/// The records of the complete containers, in the order of the containers.
pub open spec fn records_of(containers: Seq<ContainerView>) -> Seq<ResultRecord>
    decreases containers.len(),
{
    if containers.len() == 0 {
        Seq::empty()
    } else {
        let before = records_of(containers.drop_last());
        if containers.last().complete() {
            before.push(containers.last().record())
        } else {
            before
        }
    }
}

/// The positions of the complete containers, in ascending order.
pub open spec fn kept(containers: Seq<ContainerView>) -> Seq<int>
    decreases containers.len(),
{
    if containers.len() == 0 {
        Seq::empty()
    } else {
        let before = kept(containers.drop_last());
        if containers.last().complete() {
            before.push(containers.len() - 1)
        } else {
            before
        }
    }
}

/// Records keep the order of their containers: record `i` is the record of
/// the complete container at position `kept(containers)[i]`, these positions
/// ascend, and every complete container is among them. So there are never
/// more records than containers, and none is made up, doubled or moved.
pub proof fn lemma_records_keep_order(containers: Seq<ContainerView>)
    ensures
        records_of(containers).len() == kept(containers).len(),
        records_of(containers).len() <= containers.len(),
        forall|i: int|
            0 <= i < kept(containers).len() ==> {
                let at = #[trigger] kept(containers)[i];
                &&& 0 <= at < containers.len()
                &&& containers[at].complete()
                &&& records_of(containers)[i] == containers[at].record()
            },
        forall|i: int, j: int|
            0 <= i < j < kept(containers).len() ==> kept(containers)[i] < kept(containers)[j],
        forall|at: int|
            0 <= at < containers.len() && #[trigger] containers[at].complete() ==> kept(
                containers,
            ).contains(at),
    decreases containers.len(),
{
    if containers.len() > 0 {
        let front = containers.drop_last();
        let last = containers.len() - 1;
        lemma_records_keep_order(front);
        assert forall|i: int| 0 <= i < kept(containers).len() implies {
            let at = #[trigger] kept(containers)[i];
            &&& 0 <= at < containers.len()
            &&& containers[at].complete()
            &&& records_of(containers)[i] == containers[at].record()
        } by {
            if i < kept(front).len() {
                let at = kept(front)[i];
                assert(kept(containers)[i] == at);
                assert(front[at] == containers[at]);
            }
        }
        assert forall|i: int, j: int| 0 <= i < j < kept(containers).len() implies kept(
            containers,
        )[i] < kept(containers)[j] by {
            let at = kept(front)[i];
            assert(0 <= at < front.len());
            if j < kept(front).len() {
                assert(kept(front)[i] < kept(front)[j]);
            }
        }
        assert forall|at: int|
            0 <= at < containers.len() && #[trigger] containers[at].complete() implies kept(
            containers,
        ).contains(at) by {
            if at < last {
                assert(front[at] == containers[at]);
                assert(kept(front).contains(at));
                let i = choose|i: int| 0 <= i < kept(front).len() && kept(front)[i] == at;
                assert(kept(containers)[i] == at);
            } else {
                assert(kept(containers)[kept(containers).len() - 1] == at);
            }
        }
    }
}

/// Where every container is complete, there is one record for each, at the
/// container's own position.
pub proof fn lemma_complete_containers_all_kept(containers: Seq<ContainerView>)
    requires
        forall|at: int| 0 <= at < containers.len() ==> #[trigger] containers[at].complete(),
    ensures
        records_of(containers).len() == containers.len(),
        forall|at: int|
            0 <= at < containers.len() ==> #[trigger] records_of(containers)[at]
                == containers[at].record(),
    decreases containers.len(),
{
    if containers.len() > 0 {
        let front = containers.drop_last();
        assert forall|at: int| 0 <= at < front.len() implies #[trigger] front[at].complete() by {
            assert(front[at] == containers[at]);
        }
        lemma_complete_containers_all_kept(front);
        assert forall|at: int| 0 <= at < containers.len() implies #[trigger] records_of(
            containers,
        )[at] == containers[at].record() by {
            if at < front.len() {
                assert(records_of(front)[at] == front[at].record());
                assert(front[at] == containers[at]);
            }
        }
    }
}

/// No containers, no records.
pub proof fn lemma_no_containers_no_records(containers: Seq<ContainerView>)
    requires
        containers.len() == 0,
    ensures
        records_of(containers) == Seq::<ResultRecord>::empty(),
{
}

/// A complete container without a link still gives its record, and the
/// record's link is the empty text.
pub proof fn lemma_missing_link_is_empty(container: ContainerView)
    requires
        container.complete(),
        container.link is None,
    ensures
        records_of(seq![container]) == seq![container.record()],
        container.record().link == Seq::<char>::empty(),
        container.record().title == container.title->0,
        container.record().author == container.author->0,
        container.record().abs == container.abs->0,
{
    let one = seq![container];
    assert(one.drop_last() =~= Seq::<ContainerView>::empty());
    assert(records_of(one.drop_last()) =~= Seq::<ResultRecord>::empty());
    assert(records_of(one) =~= seq![container.record()]);
}

/// Appending one container appends its record if it is complete, and nothing
/// otherwise.
pub proof fn lemma_records_push(containers: Seq<ContainerView>, next: ContainerView)
    ensures
        records_of(containers.push(next)) == if next.complete() {
            records_of(containers).push(next.record())
        } else {
            records_of(containers)
        },
{
    assert(containers.push(next).drop_last() =~= containers);
}

/// Makes the record of one container: `None` where the title, the author
/// line or the summary is missing, and otherwise the record, with an empty
/// link where the container has none.
pub fn assemble_record(container: Container) -> (record: Option<ScholarResult>)
    ensures
        record is Some <==> container@.complete(),
        record matches Some(r) ==> r@ == container@.record(),
{
    let Container { title, author, abs, link } = container;
    match title {
        Some(title) => match author {
            Some(author) => match abs {
                Some(abs) => {
                    let link = match link {
                        Some(address) => address,
                        None => String::new(),
                    };
                    Some(ScholarResult { title, author, abs, link })
                },
                None => None,
            },
            None => None,
        },
        None => None,
    }
}

/// Makes the records of the containers of a page: one for each complete
/// container, in the order of the containers.
pub fn assemble_records(containers: Vec<Container>) -> (records: Vec<ScholarResult>)
    ensures
        records.deep_view() == records_of(containers.deep_view()),
{
    let ghost all = containers.deep_view();
    let mut records: Vec<ScholarResult> = Vec::new();
    assert(all.take(0) =~= Seq::<ContainerView>::empty());
    assert(records.deep_view() =~= Seq::<ResultRecord>::empty());
    for container in it: containers.into_iter()
        invariant
            all == containers.deep_view(),
            it.seq() == containers@,
            records.deep_view() == records_of(all.take(it.index() as int)),
    {
        let ghost at = it.index() as int;
        let ghost before = records.deep_view();
        proof {
            assert(all.take(at + 1) =~= all.take(at).push(container@));
            lemma_records_push(all.take(at), container@);
        }
        match assemble_record(container) {
            Some(record) => {
                records.push(record);
                assert(records.deep_view() =~= before.push(record@));
            },
            None => {},
        }
    }
    assert(all.take(containers@.len() as int) =~= all);
    records
}

} // verus!
