//! What the body of a request is read as, said of its raw fields themselves.

use vstd::prelude::*;

use crate::error::ErrorView;
use crate::field_laws;
use crate::fields;
use crate::request;
use crate::request::RawList;
use crate::request::RawRequest;
use crate::request::Scalar;
use crate::table::Block8;
use crate::text;

verus! {

/// Whether this value stands for this code: as a number, or as text.
pub open spec fn is_code(value: Scalar, code: u16) -> bool {
    match value {
        Scalar::Number(number) => number == code,
        Scalar::Text(written) => fields::code_in(written@) == Some(code),
        Scalar::Other => false,
    }
}

/// Whether this value stands for some code.
pub open spec fn is_some_code(value: Scalar) -> bool {
    match value {
        Scalar::Number(number) => number <= 0xFFFF,
        Scalar::Text(written) => fields::code_in(written@) is Some,
        Scalar::Other => false,
    }
}

/// Whether this value is text that stands for eight bytes.
pub open spec fn is_some_block(value: Scalar) -> bool {
    value matches Scalar::Text(written) && (text::hex_bytes(written@) matches Some(bytes)
        && bytes.len() == 8)
}

/// Whether this value is text that stands for bytes, however many.
pub open spec fn are_some_bytes(value: Scalar) -> bool {
    value matches Scalar::Text(written) && text::hex_bytes(written@) is Some
}

/// Whether this is a list of values that all stand for a code.
pub open spec fn are_some_codes(list: RawList) -> bool {
    list matches RawList::Items(items) && forall|i: int|
        0 <= i < items@.len() ==> is_some_code(#[trigger] items@[i])
}

/// Whether these are the codes that a list holds: as many, and each in its place.
pub open spec fn are_codes(list: RawList, codes: Seq<u16>) -> bool {
    &&& list matches RawList::Items(items)
    &&& codes.len() == items@.len()
    &&& forall|i: int| 0 <= i < codes.len() ==> is_code(items@[i], #[trigger] codes[i])
}

/// Whether this is the block that a value holds.
pub open spec fn is_block(value: Scalar, block: Block8) -> bool {
    value matches Scalar::Text(written) && text::hex_bytes(written@) == Some(block@)
}

proof fn codes_of_a_list(list: RawList)
    ensures
        request::codes_value(list) is Some <==> are_some_codes(list),
        request::codes_value(list) matches Some(codes) ==> are_codes(list, codes),
{
    if let RawList::Items(items) = list {
        assert forall|i: int| 0 <= i < items@.len() implies (request::code_of(
            #[trigger] items@[i],
        ) is Some) == is_some_code(items@[i]) by {}
    }
}

proof fn block_of_a_value(value: Scalar)
    ensures
        request::block_value(value) is Some <==> is_some_block(value),
        request::block_value(value) matches Some(block) ==> is_block(value, block),
{
    if let Scalar::Text(written) = value {
        field_laws::blocks_hold_the_bytes_of_their_text(written@);
    }
}

proof fn fields_of_a_body(raw: RawRequest)
    ensures
        raw.idm matches Some(value) ==> {
            &&& request::block_value(value) is Some <==> is_some_block(value)
            &&& request::block_value(value) matches Some(block) ==> is_block(value, block)
        },
        raw.pmm matches Some(value) ==> {
            &&& request::block_value(value) is Some <==> is_some_block(value)
            &&& request::block_value(value) matches Some(block) ==> is_block(value, block)
        },
        raw.areas matches Some(list) ==> {
            &&& request::codes_value(list) is Some <==> are_some_codes(list)
            &&& request::codes_value(list) matches Some(codes) ==> are_codes(list, codes)
        },
        raw.services matches Some(list) ==> {
            &&& request::codes_value(list) is Some <==> are_some_codes(list)
            &&& request::codes_value(list) matches Some(codes) ==> are_codes(list, codes)
        },
{
    if let Some(value) = raw.idm {
        block_of_a_value(value);
    }
    if let Some(value) = raw.pmm {
        block_of_a_value(value);
    }
    if let Some(list) = raw.areas {
        codes_of_a_list(list);
    }
    if let Some(list) = raw.services {
        codes_of_a_list(list);
    }
}

/// Each field of a request is what the field of that name in its body stands for, and is
/// left out exactly if it is left out there.
pub proof fn requests_hold_the_fields_of_their_body(raw: RawRequest)
    ensures
        request::request_in(raw) matches Ok(input) ==> {
            &&& input.session_id is Some <==> raw.session_id is Some
            &&& input.session_id matches Some(id) ==> (raw.session_id->Some_0 matches Scalar::Text(
                written,
            ) && written@ == id)
            &&& input.idm is Some <==> raw.idm is Some
            &&& input.idm matches Some(block) ==> is_block(raw.idm->Some_0, block)
            &&& input.pmm is Some <==> raw.pmm is Some
            &&& input.pmm matches Some(block) ==> is_block(raw.pmm->Some_0, block)
            &&& input.system_code is Some <==> raw.system_code is Some
            &&& input.system_code matches Some(code) ==> is_code(raw.system_code->Some_0, code)
            &&& input.areas is Some <==> raw.areas is Some
            &&& input.areas matches Some(codes) ==> are_codes(raw.areas->Some_0, codes)
            &&& input.services is Some <==> raw.services is Some
            &&& input.services matches Some(codes) ==> are_codes(raw.services->Some_0, codes)
            &&& input.card_response is Some <==> raw.card_response is Some
            &&& input.card_response matches Some(bytes) ==> (
            raw.card_response->Some_0 matches Scalar::Text(written) && text::hex_bytes(written@)
                == Some(bytes))
        },
{
    fields_of_a_body(raw);
}

/// Whether the error says that this field must be something else.
pub open spec fn blames(err: ErrorView, name: Seq<char>, wanted: Seq<char>) -> bool {
    &&& err.status == 400
    &&& err.code is None
    &&& err.message == name + " must be "@ + wanted
}

/// A body is read exactly if each field in it can be; otherwise the first field that
/// cannot is named, with what it must be.
pub proof fn unreadable_bodies_name_the_first_bad_field(raw: RawRequest)
    ensures
        ({
            let id_fine = raw.session_id matches Some(value) ==> value is Text;
            let idm_fine = raw.idm matches Some(value) ==> is_some_block(value);
            let pmm_fine = raw.pmm matches Some(value) ==> is_some_block(value);
            let system_fine = raw.system_code matches Some(value) ==> is_some_code(value);
            let areas_fine = raw.areas matches Some(list) ==> are_some_codes(list);
            let services_fine = raw.services matches Some(list) ==> are_some_codes(list);
            let card_fine = raw.card_response matches Some(value) ==> are_some_bytes(value);
            match request::request_in(raw) {
                Ok(_) => id_fine && idm_fine && pmm_fine && system_fine && areas_fine
                    && services_fine && card_fine,
                Err(err) => if !id_fine {
                    blames(err, "session_id"@, "a string"@)
                } else if !idm_fine {
                    blames(err, "idm"@, "an 8-byte hex string"@)
                } else if !pmm_fine {
                    blames(err, "pmm"@, "an 8-byte hex string"@)
                } else if !system_fine {
                    blames(err, "system_code"@, "a 16-bit integer"@)
                } else if !areas_fine {
                    blames(err, "areas"@, "a list of 16-bit integers"@)
                } else if !services_fine {
                    blames(err, "services"@, "a list of 16-bit integers"@)
                } else {
                    !card_fine && blames(err, "card_response"@, "a hex string"@)
                },
            }
        }),
{
    fields_of_a_body(raw);
}

} // verus!
