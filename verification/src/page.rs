//! Paginated responses of the web API.

use vstd::prelude::*;
use vstd::utf8::{decode_utf8, valid_utf8};

use crate::text::{c_text, c_text_view, field_bytes};

verus! {

/// Generic paginated response wrapper.
#[derive(Clone, Debug)]
pub struct Page<T> {
    /// The items of the page.
    pub items: Vec<T>,
    /// Number of the page.
    pub number: i32,
    /// Number of items per page.
    pub size: i32,
    /// Number of pages.
    pub total_pages: i32,
    /// Number of items over all pages.
    pub total_items: i32,
}

/// Raw page with items as unparsed JSON — useful when you need pagination
/// metadata before deciding how to deserialize items.
#[derive(Clone, Debug)]
pub struct RawPage {
    /// The items of the page, as a JSON array string.
    pub items_json: String,
    /// Number of the page.
    pub number: i32,
    /// Number of items per page.
    pub size: i32,
    /// Number of pages.
    pub total_pages: i32,
    /// Number of items over all pages.
    pub total_items: i32,
}

/// A `RawPage` as the engine's C interface hands it over: each text field is
/// the bytes before its terminating NUL, or `None` where the pointer was null.
#[derive(Clone, Debug)]
pub struct RawPageRecord {
    pub json_items: Option<Vec<u8>>,
    pub number: i32,
    pub size: i32,
    pub total_pages: i32,
    pub total_items: i32,
}

impl RawPage {
    /// Every text field is empty and every number zero.
    pub open spec fn is_blank(self) -> bool {
        &&& self.items_json@.len() == 0
        &&& self.number == 0
        &&& self.size == 0
        &&& self.total_pages == 0
        &&& self.total_items == 0
    }

    /// Each field holds what the record's field of the same name holds.
    pub open spec fn read_from(self, record: RawPageRecord) -> bool {
        &&& self.items_json@ == c_text_view(field_bytes(&record.json_items))
        &&& self.number == record.number
        &&& self.size == record.size
        &&& self.total_pages == record.total_pages
        &&& self.total_items == record.total_items
    }

    /// Builds the `RawPage` from the record that the engine's C interface returned;
    /// a null record gives `None`.
    pub fn from_c(record: Option<RawPageRecord>) -> (built: Option<RawPage>)
        ensures
            record is None ==> built is None,
            record matches Some(r) ==> (built matches Some(b) && b.read_from(r)),
            record matches Some(r) ==> (built matches Some(b) && (
                b.items_json@ == c_text_view(field_bytes(&r.json_items))
                && b.number == r.number
                && b.size == r.size
                && b.total_pages == r.total_pages
                && b.total_items == r.total_items
            )),
    {
        match record {
            None => None,
            Some(r) => Some(RawPage {
                items_json: c_text(&r.json_items),
                number: r.number,
                size: r.size,
                total_pages: r.total_pages,
                total_items: r.total_items,
            }),
        }
    }
}

impl RawPage {
    /// Attaches the items read from `items_json` to the pagination data of
    /// this page. `items` is `None` where `items_json` did not read as a list
    /// of items, and then so is the page.
    pub fn into_typed<T>(self, items: Option<Vec<T>>) -> (page: Option<Page<T>>)
        ensures
            items is None ==> page is None,
            items matches Some(v) ==> (page matches Some(p) && p.items@ == v@ && p.keeps_pagination_of(self)),
            items matches Some(v) ==> (page matches Some(p) && p.number == self.number
                && p.size == self.size && p.total_pages == self.total_pages
                && p.total_items == self.total_items),
    {
        match items {
            None => None,
            Some(items) => Some(Page {
                items,
                number: self.number,
                size: self.size,
                total_pages: self.total_pages,
                total_items: self.total_items,
            }),
        }
    }
}

impl<T> Page<T> {
    /// The page holds the pagination data of `raw`.
    pub open spec fn keeps_pagination_of(self, raw: RawPage) -> bool {
        &&& self.number == raw.number
        &&& self.size == raw.size
        &&& self.total_pages == raw.total_pages
        &&& self.total_items == raw.total_items
    }
}

/// A typed page keeps the pagination data of the raw page it was made from,
/// each number in the field of the same name: the page number stays the page
/// number and the page count the page count.
pub proof fn law_typed_page_keeps_pagination<T>(page: Page<T>, raw: RawPage)
    requires
        page.keeps_pagination_of(raw),
    ensures
        page.number == raw.number,
        page.size == raw.size,
        page.total_pages == raw.total_pages,
        page.total_items == raw.total_items,
{
}

/// Reading a page from the engine's record and then typing its items hands on
/// the record's pagination data unchanged, field by field.
pub proof fn law_typed_page_from_record<T>(page: Page<T>, raw: RawPage, record: RawPageRecord)
    requires
        raw.read_from(record),
        page.keeps_pagination_of(raw),
    ensures
        page.number == record.number,
        page.size == record.size,
        page.total_pages == record.total_pages,
        page.total_items == record.total_items,
{
}

impl<T> Default for Page<T> {
    fn default() -> (blank: Page<T>)
        ensures
            blank.items@.len() == 0,
            blank.number == 0,
            blank.size == 0,
            blank.total_pages == 0,
            blank.total_items == 0,
    {
        Page { items: Vec::new(), number: 0, size: 0, total_pages: 0, total_items: 0 }
    }
}

/// A `RawPage` built from a record holds in each field what the record's field of
/// the same name holds: a number as it is, and a text field the characters its
/// bytes encode, or no text where the field was null.
pub proof fn law_raw_page_fields_come_from_their_namesakes(built: RawPage, record: RawPageRecord)
    requires
        built.read_from(record),
    ensures
        record.json_items is None ==> built.items_json@.len() == 0,
        record.json_items matches Some(v) ==> (valid_utf8(v@) ==> built.items_json@ == decode_utf8(v@)),
        built.number == record.number,
        built.size == record.size,
        built.total_pages == record.total_pages,
        built.total_items == record.total_items,
{
}

impl Default for RawPage {
    fn default() -> (blank: RawPage)
        ensures
            blank.is_blank(),
    {
        RawPage {
            items_json: String::new(),
            number: 0,
            size: 0,
            total_pages: 0,
            total_items: 0,
        }
    }
}

} // verus!
