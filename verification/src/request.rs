//! Reading the body of `POST /mutual-authentication`. Byte fields are hexadecimal
//! text; integer fields are a number, or text in decimal or behind `0x` in hexadecimal.

use vstd::prelude::*;

use crate::error;
use crate::error::ErrorView;
use crate::error::ProtocolError;
use crate::fields;
use crate::session::InputView;
use crate::session::MutualAuthInput;
use crate::table::Block8;
use crate::text;

verus! {

/// A field, or an item of a list, as the body holds it.
#[derive(Debug)]
pub enum Scalar {
    /// A number without sign or fraction.
    Number(u64),
    Text(String),
    /// Anything else.
    Other,
}

/// A list as the body holds it.
#[derive(Debug)]
pub enum RawList {
    Items(Vec<Scalar>),
    /// Something that is no list.
    Other,
}

/// The fields of the body. A field that is absent or null is left out.
#[derive(Debug)]
pub struct RawRequest {
    pub session_id: Option<Scalar>,
    pub idm: Option<Scalar>,
    pub pmm: Option<Scalar>,
    pub system_code: Option<Scalar>,
    pub areas: Option<RawList>,
    pub services: Option<RawList>,
    pub card_response: Option<Scalar>,
}

/// The error for a field that is not what it should be.
pub open spec fn bad_value(name: Seq<char>, wanted: Seq<char>) -> ErrorView {
    error::error(400, name + " must be "@ + wanted)
}

/// The 16-bit number that a value is.
pub open spec fn code_of(value: Scalar) -> Option<u16> {
    match value {
        Scalar::Number(number) => if number <= u16::MAX {
            Some(number as u16)
        } else {
            None
        },
        Scalar::Text(text) => fields::code_in(text@),
        Scalar::Other => None,
    }
}

/// The block that a value is.
pub open spec fn block_value(value: Scalar) -> Option<Block8> {
    match value {
        Scalar::Text(text) => fields::block_in(text@),
        _ => None,
    }
}

/// The bytes that a value is.
pub open spec fn bytes_value(value: Scalar) -> Option<Seq<u8>> {
    match value {
        Scalar::Text(text) => text::hex_bytes(text@),
        _ => None,
    }
}

/// The text that a value is.
pub open spec fn text_value(value: Scalar) -> Option<Seq<char>> {
    match value {
        Scalar::Text(text) => Some(text@),
        _ => None,
    }
}

/// The 16-bit numbers that a list holds; nothing unless all of its items are some.
pub open spec fn codes_value(list: RawList) -> Option<Seq<u16>> {
    match list {
        RawList::Items(items) => if forall|i: int|
            0 <= i < items@.len() ==> code_of(#[trigger] items@[i]) is Some {
            Some(items@.map_values(|item: Scalar| code_of(item)->Some_0))
        } else {
            None
        },
        RawList::Other => None,
    }
}

/// What is wanted of a session id.
pub open spec fn wanted_text() -> Seq<char> {
    "a string"@
}

/// What is wanted of an IDm or PMm.
pub open spec fn wanted_block() -> Seq<char> {
    "an 8-byte hex string"@
}

/// What is wanted of a system code.
pub open spec fn wanted_code() -> Seq<char> {
    "a 16-bit integer"@
}

/// What is wanted of a list of nodes.
pub open spec fn wanted_codes() -> Seq<char> {
    "a list of 16-bit integers"@
}

/// What is wanted of a card response.
pub open spec fn wanted_bytes() -> Seq<char> {
    "a hex string"@
}

/// What a field is read as, if it is there.
pub open spec fn field_value<R, T>(field: Option<R>, value: spec_fn(R) -> Option<T>) -> Option<T> {
    match field {
        Some(raw) => value(raw),
        None => None,
    }
}

/// Whether a field is there and cannot be read.
pub open spec fn unreadable<R, T>(field: Option<R>, value: spec_fn(R) -> Option<T>) -> bool {
    field is Some && value(field->Some_0) is None
}

/// What a body asks for, or the error for the first field that cannot be read.
pub open spec fn request_in(raw: RawRequest) -> Result<InputView, ErrorView> {
    let text = |value: Scalar| text_value(value);
    let block = |value: Scalar| block_value(value);
    let code = |value: Scalar| code_of(value);
    let codes = |list: RawList| codes_value(list);
    let bytes = |value: Scalar| bytes_value(value);
    if unreadable(raw.session_id, text) {
        Err(bad_value("session_id"@, wanted_text()))
    } else if unreadable(raw.idm, block) {
        Err(bad_value("idm"@, wanted_block()))
    } else if unreadable(raw.pmm, block) {
        Err(bad_value("pmm"@, wanted_block()))
    } else if unreadable(raw.system_code, code) {
        Err(bad_value("system_code"@, wanted_code()))
    } else if unreadable(raw.areas, codes) {
        Err(bad_value("areas"@, wanted_codes()))
    } else if unreadable(raw.services, codes) {
        Err(bad_value("services"@, wanted_codes()))
    } else if unreadable(raw.card_response, bytes) {
        Err(bad_value("card_response"@, wanted_bytes()))
    } else {
        Ok(
            InputView {
                session_id: field_value(raw.session_id, text),
                idm: field_value(raw.idm, block),
                pmm: field_value(raw.pmm, block),
                system_code: field_value(raw.system_code, code),
                areas: field_value(raw.areas, codes),
                services: field_value(raw.services, codes),
                card_response: field_value(raw.card_response, bytes),
            },
        )
    }
}

/// The error for a field that is not what it should be.
fn bad_field(name: &str, wanted: &str) -> (err: ProtocolError)
    ensures
        err@ == bad_value(name@, wanted@),
{
    ProtocolError::bad_request(name.to_owned().concat(" must be ").concat(wanted))
}

/// Reads a 16-bit number.
fn read_code(value: &Scalar) -> (code: Option<u16>)
    ensures
        code == code_of(*value),
{
    match value {
        Scalar::Number(number) => if *number <= 0xFFFF {
            Some(*number as u16)
        } else {
            None
        },
        Scalar::Text(text) => fields::parse_code(text.as_str()),
        Scalar::Other => None,
    }
}

/// Reads a list of 16-bit numbers.
fn read_codes(list: &RawList) -> (codes: Option<Vec<u16>>)
    ensures
        match codes {
            Some(codes) => codes_value(*list) == Some(codes@),
            None => codes_value(*list) is None,
        },
{
    let items = match list {
        RawList::Items(items) => items,
        RawList::Other => return None,
    };
    let mut codes: Vec<u16> = Vec::new();
    for i in 0..items.len()
        invariant
            *list == RawList::Items(*items),
            codes@.len() == i,
            forall|j: int| 0 <= j < i ==> code_of(#[trigger] items@[j]) == Some(codes@[j]),
    {
        match read_code(&items[i]) {
            Some(code) => codes.push(code),
            None => {
                assert(code_of(items@[i as int]) is None);
                return None;
            },
        }
    }
    assert(codes@ =~= items@.map_values(|item: Scalar| code_of(item)->Some_0));
    Some(codes)
}

/// Reads a block, if the field is there.
fn read_block(field: &Option<Scalar>, name: &str) -> (block: Result<Option<Block8>, ProtocolError>)
    ensures
        match block {
            Ok(block) => {
                &&& !unreadable(*field, |value: Scalar| block_value(value))
                &&& block == field_value(*field, |value: Scalar| block_value(value))
            },
            Err(err) => {
                &&& unreadable(*field, |value: Scalar| block_value(value))
                &&& err@ == bad_value(name@, wanted_block())
            },
        },
{
    match field {
        Some(Scalar::Text(text)) => match fields::parse_block(text.as_str()) {
            Some(block) => Ok(Some(block)),
            None => Err(bad_field(name, "an 8-byte hex string")),
        },
        Some(_) => Err(bad_field(name, "an 8-byte hex string")),
        None => Ok(None),
    }
}

/// Reads a list of nodes, if the field is there.
fn read_nodes(field: &Option<RawList>, name: &str) -> (nodes: Result<
    Option<Vec<u16>>,
    ProtocolError,
>)
    ensures
        match nodes {
            Ok(nodes) => {
                &&& !unreadable(*field, |list: RawList| codes_value(list))
                &&& crate::session::list_in(nodes) == field_value(
                    *field,
                    |list: RawList| codes_value(list),
                )
            },
            Err(err) => {
                &&& unreadable(*field, |list: RawList| codes_value(list))
                &&& err@ == bad_value(name@, wanted_codes())
            },
        },
{
    match field {
        Some(list) => match read_codes(list) {
            Some(codes) => Ok(Some(codes)),
            None => Err(bad_field(name, "a list of 16-bit integers")),
        },
        None => Ok(None),
    }
}

/// Reads the body of a request.
pub fn read_request(raw: &RawRequest) -> (input: Result<MutualAuthInput, ProtocolError>)
    ensures
        crate::session::outcome(input) == request_in(*raw),
{
    let session_id = match &raw.session_id {
        Some(Scalar::Text(text)) => Some(text.clone()),
        Some(_) => return Err(bad_field("session_id", "a string")),
        None => None,
    };
    let idm = match read_block(&raw.idm, "idm") {
        Ok(block) => block,
        Err(err) => return Err(err),
    };
    let pmm = match read_block(&raw.pmm, "pmm") {
        Ok(block) => block,
        Err(err) => return Err(err),
    };
    let system_code = match &raw.system_code {
        Some(value) => match read_code(value) {
            Some(code) => Some(code),
            None => return Err(bad_field("system_code", "a 16-bit integer")),
        },
        None => None,
    };
    let areas = match read_nodes(&raw.areas, "areas") {
        Ok(nodes) => nodes,
        Err(err) => return Err(err),
    };
    let services = match read_nodes(&raw.services, "services") {
        Ok(nodes) => nodes,
        Err(err) => return Err(err),
    };
    let card_response = match &raw.card_response {
        Some(Scalar::Text(text)) => match fields::parse_bytes(text.as_str()) {
            Some(bytes) => Some(bytes),
            None => return Err(bad_field("card_response", "a hex string")),
        },
        Some(_) => return Err(bad_field("card_response", "a hex string")),
        None => None,
    };
    Ok(
        MutualAuthInput {
            session_id,
            idm,
            pmm,
            system_code,
            areas,
            services,
            card_response,
        },
    )
}

} // verus!
