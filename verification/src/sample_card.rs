//! The requests that a client makes for one sample card, as a walk through the
//! exchange uses them: one to start an authentication, and one for each card response.

use vstd::prelude::*;

use crate::rules;
use crate::session::InputView;
use crate::session::MutualAuthInput;

verus! {

/// The system of the sample card.
pub const SYSTEM_CODE: u16 = 0x0003;

/// The manufacture ID of the sample card.
pub const IDM: [u8; 8] = [0x01, 0x02, 0x03, 0x04, 0x05, 0x06, 0x07, 0x08];

/// The manufacture parameter of the sample card.
pub const PMM: [u8; 8] = [0x01, 0x00, 0x00, 0x00, 0x00, 0x00, 0x00, 0x00];

/// A request to authenticate these nodes of the sample card in a new session.
pub fn start_input(areas: Vec<u16>, services: Vec<u16>) -> (input: MutualAuthInput)
    ensures
        input@ == (InputView {
            idm: Some(IDM),
            pmm: Some(PMM),
            system_code: Some(SYSTEM_CODE),
            areas: Some(areas@),
            services: Some(services@),
            ..rules::empty_input()
        }),
        input.session_id is None,
        input.idm matches Some(idm) && idm@ == seq![1u8, 2, 3, 4, 5, 6, 7, 8],
        input.pmm matches Some(pmm) && pmm@ == seq![1u8, 0, 0, 0, 0, 0, 0, 0],
        input.system_code == Some(3u16),
        input.areas == Some(areas),
        input.services == Some(services),
        input.card_response is None,
{
    MutualAuthInput {
        session_id: None,
        idm: Some(IDM),
        pmm: Some(PMM),
        system_code: Some(SYSTEM_CODE),
        areas: Some(areas),
        services: Some(services),
        card_response: None,
    }
}

/// A request that feeds a card response to a session.
pub fn card_input(session_id: &str, card_response: Vec<u8>) -> (input: MutualAuthInput)
    ensures
        input@ == (InputView {
            session_id: Some(session_id@),
            card_response: Some(card_response@),
            ..rules::empty_input()
        }),
        input.session_id matches Some(id) && id@ == session_id@,
        input.idm is None,
        input.pmm is None,
        input.system_code is None,
        input.areas is None,
        input.services is None,
        input.card_response == Some(card_response),
{
    MutualAuthInput {
        session_id: Some(session_id.to_owned()),
        idm: None,
        pmm: None,
        system_code: None,
        areas: None,
        services: None,
        card_response: Some(card_response),
    }
}

} // verus!
