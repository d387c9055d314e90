//! What the answers to the GraphQL operations hold, and where.

use crate::error::{result_view, ApiError, ApiErrorView};
use crate::json::{
    item, item_pointer, json_document, json_nodes, len_at, parse_document, read_len, read_text,
    text_at, Document,
};
use crate::types::{FundingInstrument, FundingInstrumentView, Identity, IdentityView};
use vstd::prelude::*;
use vstd::string::StringExecFns;

verus! {

/// Where the answer to the profile query holds the identity: the first of
/// the identities available.
pub const IDENTITY_POINTER: &'static str = "/data/profile/availableIdentities/0";

/// Where the answer to a search holds the people found.
pub const PEOPLE_POINTER: &'static str = "/data/search/people/edges";

/// Where the answer to a search holds the id of the first person found.
pub const FIRST_PERSON_POINTER: &'static str = "/data/search/people/edges/0/node/id";

/// Where the answer to the wallet query holds the payment methods.
pub const WALLET_POINTER: &'static str = "/data/profile/wallet";

/// The detail of the error for an answer that does not hold what was asked for.
pub const UNREADABLE_ANSWER: &'static str = "the answer could not be read";

/// The detail of the error for a search that matched nobody.
pub const NOBODY_FOUND: &'static str = "the search matched nobody";

/// The detail of the error for the lack of an identity.
pub const IDENTITY_NOT_FOUND: &'static str = "Identity not found.";

/// The identity that the answer `body` to the profile query holds.
pub open spec fn identity_in(body: Seq<char>) -> Option<IdentityView> {
    match json_document(body) {
        Some(doc) => Identity::decoded(doc, IDENTITY_POINTER@),
        None => None,
    }
}

/// Reads the identity out of the answer to the profile query.
pub fn read_identity(body: &str) -> (identity: Option<Identity>)
    ensures
        identity.deep_view() == identity_in(body@),
{
    match parse_document(body) {
        Some(doc) => Identity::decode(&doc, IDENTITY_POINTER),
        None => None,
    }
}

/// What a search whose answer is the document `doc` found: the id of the
/// first person, `UserNotFound` where the list of people is there and empty,
/// `UserQueryFailure` for anything else.
pub open spec fn found_in(doc: Document) -> Result<Seq<char>, ApiErrorView> {
    if len_at(doc, PEOPLE_POINTER@) == Some(0nat) {
        Err(ApiErrorView::UserNotFound(NOBODY_FOUND@))
    } else {
        match text_at(doc, FIRST_PERSON_POINTER@) {
            Some(id) => Ok(id),
            None => Err(ApiErrorView::UserQueryFailure(UNREADABLE_ANSWER@)),
        }
    }
}

/// What a search whose answer is `body` found.
pub open spec fn user_id_in(body: Seq<char>) -> Result<Seq<char>, ApiErrorView> {
    match json_document(body) {
        Some(doc) => found_in(doc),
        None => Err(ApiErrorView::UserQueryFailure(UNREADABLE_ANSWER@)),
    }
}

/// Reads what a search found out of the parsed answer.
pub fn read_found(doc: &serde_json::Value) -> (found: Result<String, ApiError>)
    ensures
        result_view(found) == found_in(json_nodes(*doc)),
{
    match read_len(doc, PEOPLE_POINTER) {
        Some(0) => Err(ApiError::UserNotFound(String::from_str(NOBODY_FOUND))),
        _ => match read_text(doc, FIRST_PERSON_POINTER) {
            Some(id) => Ok(id),
            None => Err(ApiError::UserQueryFailure(String::from_str(UNREADABLE_ANSWER))),
        },
    }
}

/// Reads what a search found out of its answer.
pub fn read_user_id(body: &str) -> (found: Result<String, ApiError>)
    ensures
        result_view(found) == user_id_in(body@),
{
    match parse_document(body) {
        Some(doc) => read_found(&doc),
        None => Err(ApiError::UserQueryFailure(String::from_str(UNREADABLE_ANSWER))),
    }
}

/// A search that found no one says so: an answer with an empty list of
/// people is `UserNotFound`, never the failure of an answer that cannot be
/// read.
pub proof fn lemma_nobody_is_told_apart(doc: Document)
    requires
        len_at(doc, PEOPLE_POINTER@) == Some(0nat),
    ensures
        found_in(doc) is Err,
        found_in(doc)->Err_0 is UserNotFound,
{
}

/// The payment method at place `index` of the wallet in `doc`, if what
/// stands there is one.
pub open spec fn instrument_at(doc: Document, index: int) -> Option<FundingInstrumentView> {
    FundingInstrument::decoded(doc, item(WALLET_POINTER@, index as nat))
}

/// The payment methods among the first `count` entries of the wallet in
/// `doc`, in their order. An entry that is no payment method is passed over.
pub open spec fn instruments_among(doc: Document, count: nat) -> Seq<FundingInstrumentView>
    decreases count,
{
    if count == 0 {
        Seq::empty()
    } else {
        let before = instruments_among(doc, (count - 1) as nat);
        match instrument_at(doc, count - 1) {
            Some(instrument) => before.push(instrument),
            None => before,
        }
    }
}

/// The payment methods that the document `doc` holds; `None` where it holds
/// no wallet.
pub open spec fn wallet_in(doc: Document) -> Option<Seq<FundingInstrumentView>> {
    match len_at(doc, WALLET_POINTER@) {
        Some(count) => Some(instruments_among(doc, count)),
        None => None,
    }
}

/// The payment methods that the answer `body` to the wallet query holds.
pub open spec fn instruments_in(body: Seq<char>) -> Option<Seq<FundingInstrumentView>> {
    match json_document(body) {
        Some(doc) => wallet_in(doc),
        None => None,
    }
}

/// No more payment methods are read than the wallet has entries, and where
/// every entry is a payment method none is lost.
pub proof fn lemma_instruments_among(doc: Document, count: nat)
    ensures
        instruments_among(doc, count).len() <= count,
        (forall|i: int| 0 <= i < count ==> (#[trigger] instrument_at(doc, i)) is Some)
            ==> instruments_among(doc, count) == Seq::new(
            count,
            |i: int| instrument_at(doc, i)->0,
        ),
        (forall|i: int| 0 <= i < count ==> (#[trigger] instrument_at(doc, i)) is None)
            ==> instruments_among(doc, count) == Seq::<FundingInstrumentView>::empty(),
    decreases count,
{
    if count > 0 {
        lemma_instruments_among(doc, (count - 1) as nat);
    }
}

/// Reads the payment methods out of the parsed answer.
pub fn read_wallet(doc: &serde_json::Value) -> (instruments: Option<Vec<FundingInstrument>>)
    ensures
        instruments.deep_view() == wallet_in(json_nodes(*doc)),
{
    match read_len(doc, WALLET_POINTER) {
        None => None,
        Some(count) => {
            let mut instruments: Vec<FundingInstrument> = Vec::new();
            let mut i: usize = 0;
            while i < count
                invariant
                    i <= count,
                    instruments.deep_view() == instruments_among(json_nodes(*doc), i as nat),
                decreases count - i,
            {
                match FundingInstrument::decode(doc, item_pointer(WALLET_POINTER, i).as_str()) {
                    Some(instrument) => {
                        instruments.push(instrument);
                    },
                    None => {},
                }
                i = i + 1;
            }
            Some(instruments)
        },
    }
}

/// Reads the payment methods out of the answer to the wallet query.
pub fn read_instruments(body: &str) -> (instruments: Option<Vec<FundingInstrument>>)
    ensures
        instruments.deep_view() == instruments_in(body@),
{
    match parse_document(body) {
        Some(doc) => read_wallet(&doc),
        None => None,
    }
}

} // verus!
