use vstd::prelude::*;

use crate::errors::Error;
use crate::record::{CloudflareDnsEntry, EntryView};

verus! {

/// One element of the provider's record array, reduced to the three string
/// fields the lookup reads. A field is `None` when it is absent from the
/// record object or is not a JSON string.
pub struct RecordFields {
    pub name: Option<String>,
    pub id: Option<String>,
    pub content: Option<String>,
}

/// Mathematical image of `RecordFields`.
pub struct RecordFieldsView {
    pub name: Option<Seq<char>>,
    pub id: Option<Seq<char>>,
    pub content: Option<Seq<char>>,
}

impl View for RecordFields {
    type V = RecordFieldsView;

    open spec fn view(&self) -> RecordFieldsView {
        RecordFieldsView {
            name: match self.name {
                Option::Some(s) => Option::Some(s@),
                Option::None => Option::None,
            },
            id: match self.id {
                Option::Some(s) => Option::Some(s@),
                Option::None => Option::None,
            },
            content: match self.content {
                Option::Some(s) => Option::Some(s@),
                Option::None => Option::None,
            },
        }
    }
}

/// A lookup response body after JSON decoding.
pub enum LookupBody {
    /// The body is not valid JSON; carries the decoder's message.
    NotJson(String),
    /// The top-level `result` field is missing or is not an array.
    NoRecordArray,
    /// The `result` array, one element per record.
    Records(Vec<RecordFields>),
}

/// Mathematical image of `LookupBody`.
pub enum LookupBodyView {
    NotJson(Seq<char>),
    NoRecordArray,
    Records(Seq<RecordFieldsView>),
}

/// The images of a sequence of records.
pub open spec fn record_views(rs: Seq<RecordFields>) -> Seq<RecordFieldsView> {
    rs.map_values(|r: RecordFields| r@)
}

impl View for LookupBody {
    type V = LookupBodyView;

    open spec fn view(&self) -> LookupBodyView {
        match self {
            LookupBody::NotJson(m) => LookupBodyView::NotJson(m@),
            LookupBody::NoRecordArray => LookupBodyView::NoRecordArray,
            LookupBody::Records(rs) => LookupBodyView::Records(record_views(rs@)),
        }
    }
}

/// What JSON decoding makes of a lookup response body. Decoding is a pure
/// function of the text, so the result only gets a name here; everything the
/// lookup decides from it is stated and proved over this name.
pub uninterp spec fn parsed_lookup(body: Seq<char>) -> LookupBodyView;

/// Relies on `serde_json::from_str` and `serde_json::Value::{get, as_array,
/// as_str}`: decodes the body and keeps, of each element of the top-level
/// `result` array, the string fields `name`, `id` and `content`.
#[verifier::external_body]
fn parse_lookup_body(body: &str) -> (r: LookupBody)
    ensures
        r@ == parsed_lookup(body@),
{
    match serde_json::from_str::<serde_json::Value>(body) {
        Err(e) => LookupBody::NotJson(e.to_string()),
        Ok(v) => match v.get("result").and_then(|f| f.as_array()) {
            None => LookupBody::NoRecordArray,
            Some(arr) => LookupBody::Records(
                arr.iter()
                    .map(|rec| RecordFields {
                        name: rec.get("name").and_then(|f| f.as_str()).map(String::from),
                        id: rec.get("id").and_then(|f| f.as_str()).map(String::from),
                        content: rec.get("content").and_then(|f| f.as_str()).map(String::from),
                    })
                    .collect(),
            ),
        },
    }
}

/// Outcome of scanning the record array: the first record whose `name`
/// equals the domain decides the result, and a missing `id` or `content`
/// string on that record is an error of its own.
pub open spec fn find_entry(rs: Seq<RecordFieldsView>, domain: Seq<char>) -> Result<
    EntryView,
    Seq<char>,
>
    decreases rs.len(),
{
    if rs.len() == 0 {
        Result::Err("No Element in Array"@)
    } else if rs[0].name == Option::Some(domain) {
        match (rs[0].id, rs[0].content) {
            (Option::Some(id), Option::Some(content)) => Result::Ok(
                EntryView { id: id, ip_address: content },
            ),
            (Option::None, _) => Result::Err("Could not parse id"@),
            (Option::Some(_), Option::None) => Result::Err("Could not parse content"@),
        }
    } else {
        find_entry(rs.drop_first(), domain)
    }
}

/// What a lookup returns for a given response body and target domain.
pub open spec fn lookup_outcome(body: Seq<char>, domain: Seq<char>) -> Result<
    EntryView,
    Seq<char>,
> {
    match parsed_lookup(body) {
        LookupBodyView::NotJson(m) => Result::Err(m),
        LookupBodyView::NoRecordArray => Result::Err("Could not parse array"@),
        LookupBodyView::Records(rs) => find_entry(rs, domain),
    }
}

/// Spec image of an entry-or-error result.
pub open spec fn entry_result_view(r: Result<CloudflareDnsEntry, Error>) -> Result<
    EntryView,
    Seq<char>,
> {
    match r {
        Result::Ok(e) => Result::Ok(e@),
        Result::Err(e) => Result::Err(e@),
    }
}

/// Reads the id and current address of the target domain out of a lookup
/// response body: the body is decoded as JSON, and the first element of the
/// top-level `result` array whose `name` equals `domain` decides the outcome.
/// Never panics, whatever the body holds.
pub fn get_id_and_content_of_dns(body: &str, domain: &str) -> (r: Result<
    CloudflareDnsEntry,
    Error,
>)
    ensures
        entry_result_view(r) == lookup_outcome(body@, domain@),
{
    let parsed = parse_lookup_body(body);
    match parsed {
        LookupBody::NotJson(m) => Err(Error { message: m }),
        LookupBody::NoRecordArray => Err(Error::new("Could not parse array")),
        LookupBody::Records(rs) => find_entry_in_records(rs, domain),
    }
}

/// The verified scan behind `get_id_and_content_of_dns`.
fn find_entry_in_records(rs: Vec<RecordFields>, domain: &str) -> (r: Result<
    CloudflareDnsEntry,
    Error,
>)
    ensures
        entry_result_view(r) == find_entry(record_views(rs@), domain@),
{
    let ghost all: Seq<RecordFieldsView> = record_views(rs@);
    proof {
        assert(all.skip(0) =~= all);
    }
    let dom: String = domain.to_owned();
    let len = rs.len();
    let mut i: usize = 0;
    while i < len
        invariant
            len == rs.len(),
            i <= len,
            dom@ == domain@,
            all == record_views(rs@),
            find_entry(all, domain@) == find_entry(all.skip(i as int), domain@),
        decreases len - i,
    {
        let rec = &rs[i];
        proof {
            assert(all.skip(i as int)[0] == all[i as int]);
            assert(all[i as int] == rec@);
        }
        let name_matches = match &rec.name {
            Some(n) => *n == dom,
            None => false,
        };
        if name_matches {
            match (&rec.id, &rec.content) {
                (Some(id), Some(content)) => {
                    return Ok(CloudflareDnsEntry { id: id.clone(), ip_address: content.clone() });
                },
                (None, _) => {
                    return Err(Error::new("Could not parse id"));
                },
                (_, None) => {
                    return Err(Error::new("Could not parse content"));
                },
            }
        }
        proof {
            assert(all.skip(i as int).drop_first() =~= all.skip(i as int + 1));
        }
        i = i + 1;
    }
    proof {
        assert(all.skip(len as int) =~= Seq::<RecordFieldsView>::empty());
    }
    Err(Error::new("No Element in Array"))
}

/// The lookup returns the first matching record's `id` and `content`
/// unchanged: if record `i` is the first whose `name` equals the domain, and
/// it has both string fields, the scan returns exactly those fields.
pub proof fn lemma_lookup_returns_first_match(
    rs: Seq<RecordFieldsView>,
    domain: Seq<char>,
    i: int,
)
    requires
        0 <= i < rs.len(),
        rs[i].name == Option::Some(domain),
        forall|j: int| 0 <= j < i ==> rs[j].name != Option::Some(domain),
        rs[i].id is Some,
        rs[i].content is Some,
    ensures
        find_entry(rs, domain) == Result::<EntryView, Seq<char>>::Ok(
            EntryView { id: rs[i].id->0, ip_address: rs[i].content->0 },
        ),
    decreases i,
{
    if i > 0 {
        lemma_lookup_returns_first_match(rs.drop_first(), domain, i - 1);
    }
}

/// A record array with no record named after the domain makes the lookup
/// fail with the not-found error, whatever else the records hold.
pub proof fn lemma_lookup_no_match(rs: Seq<RecordFieldsView>, domain: Seq<char>)
    requires
        forall|j: int| 0 <= j < rs.len() ==> rs[j].name != Option::Some(domain),
    ensures
        find_entry(rs, domain) == Result::<EntryView, Seq<char>>::Err("No Element in Array"@),
    decreases rs.len(),
{
    if rs.len() > 0 {
        lemma_lookup_no_match(rs.drop_first(), domain);
    }
}

} // verus!
