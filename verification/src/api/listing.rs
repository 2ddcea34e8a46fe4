//! Looking up listings by their identifiers.

use vstd::prelude::*;
use vstd::string::*;
use crate::api::request::ApiConfig;
use crate::json::{
    copy_value, items_member, items_member_of, member, member_of, parse, parsed,
};
use crate::models::paginated::{results_view, DecodeError};
use crate::text::{decimal, joined, lemma_joined_push, push_char, push_decimal};

verus! {

/// The numerals of the identifiers `ids`, in their order.
pub open spec fn id_texts(ids: Seq<usize>) -> Seq<Seq<char>> {
    Seq::new(ids.len(), |i: int| decimal(ids[i] as nat))
}

/// The value of the `ids` parameter: the numerals of `ids`, in their order,
/// with a comma between neighbours. Without identifiers it is empty.
pub open spec fn ids_text(ids: Seq<usize>) -> Seq<char> {
    joined(id_texts(ids))
}

/// Appends the value of the `ids` parameter for `ids` to `out`.
pub fn push_ids(out: &mut String, ids: &Vec<usize>)
    ensures
        final(out)@ == old(out)@ + ids_text(ids@),
{
    let ghost texts = id_texts(ids@);
    let mut i: usize = 0;
    assert(out@ =~= old(out)@ + joined(texts.take(0)));
    while i < ids.len()
        invariant
            i <= ids.len(),
            texts == id_texts(ids@),
            out@ == old(out)@ + joined(texts.take(i as int)),
        decreases ids.len() - i,
    {
        if i > 0 {
            push_char(out, ',');
        }
        push_decimal(out, ids[i] as u64);
        proof {
            lemma_joined_push(texts.take(i as int), texts[i as int]);
            assert(texts.take(i + 1) =~= texts.take(i as int).push(texts[i as int]));
            assert(out@ =~= old(out)@ + joined(texts.take(i + 1)));
        }
        i = i + 1;
    }
    assert(texts.take(i as int) =~= texts);
}

/// The address at which the listings `ids` are looked up in one request.
pub fn listing_url(config: &ApiConfig, ids: &Vec<usize>) -> (r: String)
    ensures
        r@ == config.backend_url@ + "/listings/listings?ids="@ + ids_text(ids@),
{
    let mut url = config.backend_url.clone();
    url.append("/listings/listings?ids=");
    push_ids(&mut url, ids);
    url
}

/// Every entry holds a listing.
pub open spec fn all_hold_listings(entries: Seq<serde_json::Value>) -> bool {
    forall|i: int| 0 <= i < entries.len() ==> member_of(#[trigger] entries[i], "listing"@) is Some
}

/// `listings` are the listings of `entries`, one for one and in order.
pub open spec fn listings_of(
    listings: Seq<serde_json::Value>,
    entries: Seq<serde_json::Value>,
) -> bool {
    &&& listings.len() == entries.len()
    &&& forall|i: int|
        0 <= i < entries.len() ==> member_of(entries[i], "listing"@) == Some(#[trigger] listings[i])
}

/// What becomes of the entries of a bundle: `outcome` holds their listings,
/// or says that an entry holds none.
pub open spec fn bundle_outcome(
    outcome: Result<Vec<serde_json::Value>, DecodeError>,
    entries: Option<Seq<serde_json::Value>>,
) -> bool {
    match entries {
        Some(found) => if all_hold_listings(found) {
            outcome is Ok && listings_of(outcome->Ok_0@, found)
        } else {
            outcome == Err::<Vec<serde_json::Value>, DecodeError>(DecodeError::Shape)
        },
        None => outcome == Err::<Vec<serde_json::Value>, DecodeError>(DecodeError::Shape),
    }
}

/// Takes the listing out of every entry of a bundle.
pub fn collect_listings(entries: Option<Vec<serde_json::Value>>) -> (r: Result<
    Vec<serde_json::Value>,
    DecodeError,
>)
    ensures
        bundle_outcome(r, results_view(entries)),
{
    let bundle = match entries {
        Some(found) => found,
        None => {
            return Err(DecodeError::Shape);
        },
    };
    let mut listings: Vec<serde_json::Value> = Vec::new();
    let mut i: usize = 0;
    while i < bundle.len()
        invariant
            i <= bundle.len(),
            results_view(entries) == Some(bundle@),
            listings@.len() == i,
            forall|j: int|
                0 <= j < i ==> member_of(bundle@[j], "listing"@) == Some(#[trigger] listings@[j]),
        decreases bundle.len() - i,
    {
        match member(&bundle[i], "listing") {
            Some(found) => {
                listings.push(copy_value(found));
            },
            None => {
                assert(member_of(bundle@[i as int], "listing"@) is None);
                return Err(DecodeError::Shape);
            },
        }
        i = i + 1;
    }
    assert forall|j: int| 0 <= j < bundle@.len() implies member_of(
        #[trigger] bundle@[j],
        "listing"@,
    ) is Some by {
        assert(member_of(bundle@[j], "listing"@) == Some(listings@[j]));
    }
    Ok(listings)
}

/// Reads the answer to a lookup by identifiers: a bundle of entries, each
/// of which holds one listing. The listings are handed on as the parser
/// found them, in the order of the answer.
pub fn parse_listings_result(text: &str) -> (r: Result<Vec<serde_json::Value>, DecodeError>)
    ensures
        match parsed(text@) {
            None => r == Err::<Vec<serde_json::Value>, DecodeError>(DecodeError::Syntax),
            Some(document) => bundle_outcome(r, items_member_of(document, "listings"@)),
        },
{
    match parse(text) {
        Err(_) => Err(DecodeError::Syntax),
        Ok(document) => collect_listings(items_member(&document, "listings")),
    }
}

} // verus!
