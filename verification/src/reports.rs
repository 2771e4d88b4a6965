//! The texts with which the client's background commands report that they are
//! done.

use vstd::prelude::*;
use vstd::string::StringExecFns;
use crate::error::prefixed;

verus! {

/// The text that `{:?}` gives for a list of strings: what `Debug` for
/// `Vec<String>` writes.
pub uninterp spec fn debug_listing(items: Seq<Seq<char>>) -> Seq<char>;

/// `format!` with `{:?}` on a `Vec<String>`: the list in brackets, each string
/// quoted and escaped.
#[verifier::external_body]
pub(crate) fn debug_listing_of(items: &Vec<String>) -> (text: String)
    ensures
        text@ == debug_listing(items.deep_view()),
{
    format!("{:?}", items)
}

/// The name under which promotions are watched: the store, or all of them.
pub open spec fn watched(store: Option<String>) -> Seq<char> {
    match store {
        Some(name) => name@,
        None => "all stores"@,
    }
}

/// Reports that the promotions of `store`, or of all stores, were looked
/// through.
pub fn promotions_report(store: Option<String>) -> (text: String)
    ensures
        text@ == "Promotion monitoring completed for: "@ + watched(store),
{
    match store {
        Some(name) => prefixed("Promotion monitoring completed for: ", name.as_str()),
        None => prefixed("Promotion monitoring completed for: ", "all stores"),
    }
}

/// Reports that the receipt with the given identifier was saved.
pub fn receipt_saved_report(receipt_id: &str) -> (text: String)
    ensures
        text@ == "Receipt saved with ID: "@ + receipt_id@,
{
    prefixed("Receipt saved with ID: ", receipt_id)
}

/// Reports that `data` was analysed.
pub fn analysis_report(data: &str) -> (text: String)
    ensures
        text@ == "AI analysis completed for data: "@ + data@,
{
    prefixed("AI analysis completed for data: ", data)
}

/// Reports that the given stores were scraped.
pub fn scraper_report(stores: &Vec<String>) -> (text: String)
    ensures
        text@ == "Scraped data for stores: "@ + debug_listing(stores.deep_view()),
{
    let listing = debug_listing_of(stores);
    prefixed("Scraped data for stores: ", listing.as_str())
}

} // verus!
