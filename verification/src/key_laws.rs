//! What holds of the key file, of the choice of keys, and of the worker that takes them,
//! said of the lines, keys and nodes themselves.

use vstd::prelude::*;

use crate::error::ErrorView;
use crate::field_laws;
use crate::fields;
use crate::keystore;
use crate::keystore::KeyLine;
use crate::keystore::StoredKey;
use crate::relay::OutView;
use crate::relay::StartView;
use crate::table::Block8;
use crate::text;
use crate::worker;
use crate::worker::Authentication;
use crate::worker::Credentials;
use crate::worker::WorkerActionView;
use crate::worker::WorkerPhaseView;

verus! {

/// The key of a line is the line's own: its system and node are the line's hexadecimal
/// numbers, its bytes are those that the line's key stands for, and it belongs to the
/// card that the line names, or to all cards if the line names none.
pub proof fn key_of_a_line_is_its_own(line: KeyLine)
    ensures
        keystore::key_in(line) matches Ok(Some(key)) ==> {
            &&& line.algo@ == "DES"@
            &&& fields::number_in(line.system_code@, 16) == Some(key.system_code)
            &&& fields::number_in(line.node@, 16) == Some(key.node)
            &&& text::hex_bytes(line.key@) == Some(key.key@)
            &&& line.idm is None <==> key.idm is None
            &&& line.idm matches Some(written) ==> text::hex_bytes(written@) == Some(
                key.idm->Some_0@,
            )
        },
{
    field_laws::blocks_hold_the_bytes_of_their_text(line.key@);
    if let Some(written) = line.idm {
        field_laws::blocks_hold_the_bytes_of_their_text(written@);
    }
}

/// Whether a text stands for eight bytes.
pub open spec fn stands_for_eight_bytes(written: Seq<char>) -> bool {
    text::hex_bytes(written) matches Some(bytes) && bytes.len() == 8
}

/// Which lines are read: an AES line, to no key; a DES line whose fields can be read, to
/// a key; and no other. The error for a line says which of its fields is at fault.
pub proof fn readable_lines(line: KeyLine)
    ensures
        ({
            let system_fine = fields::number_in(line.system_code@, 16) is Some;
            let node_fine = fields::number_in(line.node@, 16) is Some;
            let idm_fine = line.idm is None || stands_for_eight_bytes(line.idm->Some_0@);
            let key_fine = stands_for_eight_bytes(line.key@);
            if line.algo@ == "AES"@ {
                keystore::key_in(line) == Ok::<Option<StoredKey>, ErrorView>(None)
            } else if line.algo@ == "DES"@ && system_fine && node_fine && idm_fine && key_fine {
                keystore::key_in(line) matches Ok(Some(_))
            } else {
                &&& keystore::key_in(line) matches Err(err)
                &&& err.status == 500
                &&& err.code is None
                &&& err.message == "invalid key record: "@ + (if line.algo@ != "DES"@ {
                    "algo"@
                } else if !system_fine {
                    "system_code"@
                } else if !node_fine {
                    "node"@
                } else if !idm_fine {
                    "idm"@
                } else {
                    "key"@
                })
            }
        }),
{
    field_laws::blocks_hold_the_bytes_of_their_text(line.key@);
    if let Some(written) = line.idm {
        field_laws::blocks_hold_the_bytes_of_their_text(written@);
    }
    reveal_strlit("AES");
    reveal_strlit("DES");
    assert("AES"@[0] != "DES"@[0]);
}

/// The keys of a file are those of its lines, each once and in their order; the line at
/// fault is the first one that cannot be read.
pub proof fn keys_of_a_file_are_those_of_its_lines(lines: Seq<KeyLine>, line: KeyLine, i: int)
    ensures
        keystore::keys_in(Seq::empty()) == Seq::<StoredKey>::empty(),
        keystore::keys_in(lines.push(line)) == (match keystore::key_in(line) {
            Ok(Some(key)) => keystore::keys_in(lines).push(key),
            _ => keystore::keys_in(lines),
        }),
        keystore::first_bad_line(lines, i) ==> {
            &&& 0 <= i < lines.len()
            &&& keystore::key_in(lines[i]) is Err
            &&& forall|j: int| 0 <= j < i ==> keystore::key_in(#[trigger] lines[j]) is Ok
        },
{
    assert(lines.push(line).drop_last() =~= lines);
}

/// A line that names one card changes nothing for any other card.
pub proof fn lines_of_one_card_do_not_matter_to_another(
    keys: Seq<StoredKey>,
    line: KeyLine,
    idm: Block8,
    system_code: u16,
    node: u16,
)
    requires
        line.idm is Some,
        text::hex_bytes(line.idm->Some_0@) != Some(idm@),
        keystore::key_in(line) matches Ok(Some(_)),
    ensures
        keystore::card_key(keys.push(keystore::key_in(line)->Ok_0->Some_0), system_code, node, idm)
            == keystore::card_key(keys, system_code, node, idm),
{
    key_of_a_line_is_its_own(line);
    let key = keystore::key_in(line)->Ok_0->Some_0;
    assert(keys.push(key).drop_last() =~= keys);
    assert(keystore::last_key(keys.push(key), system_code, node, None) == keystore::last_key(
        keys,
        system_code,
        node,
        None,
    ));
}

/// Whether the key at `i` is one for that node and that owner, a card or all of them.
pub open spec fn is_for(
    keys: Seq<StoredKey>,
    i: int,
    system_code: u16,
    node: u16,
    owner: Option<Block8>,
) -> bool {
    &&& 0 <= i < keys.len()
    &&& keys[i].system_code == system_code
    &&& keys[i].node == node
    &&& keys[i].idm == owner
}

/// Whether the key at `i` is the last one for that node and that owner.
pub open spec fn is_last_for(
    keys: Seq<StoredKey>,
    i: int,
    system_code: u16,
    node: u16,
    owner: Option<Block8>,
) -> bool {
    &&& is_for(keys, i, system_code, node, owner)
    &&& forall|j: int| j > i ==> !is_for(keys, j, system_code, node, owner)
}

proof fn last_key_is_the_last(
    keys: Seq<StoredKey>,
    system_code: u16,
    node: u16,
    owner: Option<Block8>,
)
    ensures
        match keystore::last_key(keys, system_code, node, owner) {
            Some(key) => exists|i: int| #[trigger]
                is_last_for(keys, i, system_code, node, owner) && keys[i].key == key,
            None => forall|i: int| !is_for(keys, i, system_code, node, owner),
        },
    decreases keys.len(),
{
    if keys.len() > 0 {
        let rest = keys.drop_last();
        let last = keys.len() - 1;
        if keystore::belongs(keys.last(), system_code, node, owner) {
            assert(is_last_for(keys, last, system_code, node, owner));
        } else {
            last_key_is_the_last(rest, system_code, node, owner);
            assert forall|i: int| is_for(keys, i, system_code, node, owner) implies is_for(
                rest,
                i,
                system_code,
                node,
                owner,
            ) by {
                assert(i < last);
            }
            if let Some(key) = keystore::last_key(rest, system_code, node, owner) {
                let i = choose|i: int| #[trigger]
                    is_last_for(rest, i, system_code, node, owner) && rest[i].key == key;
                assert(is_for(rest, i, system_code, node, owner));
                assert(is_last_for(keys, i, system_code, node, owner));
            }
        }
    }
}

/// The key for a node of a card is the last of the card's own keys for it; without any,
/// it is the last of the keys for all cards; without any of those, there is none.
pub proof fn key_of_a_card_is_its_own_or_the_shared_one(
    keys: Seq<StoredKey>,
    system_code: u16,
    node: u16,
    idm: Block8,
)
    ensures
        if exists|i: int| is_for(keys, i, system_code, node, Some(idm)) {
            exists|i: int| #[trigger]
                is_last_for(keys, i, system_code, node, Some(idm)) && keystore::card_key(
                    keys,
                    system_code,
                    node,
                    idm,
                ) == Some(keys[i].key)
        } else if exists|i: int| is_for(keys, i, system_code, node, None) {
            exists|i: int| #[trigger]
                is_last_for(keys, i, system_code, node, None) && keystore::card_key(
                    keys,
                    system_code,
                    node,
                    idm,
                ) == Some(keys[i].key)
        } else {
            keystore::card_key(keys, system_code, node, idm) is None
        },
{
    last_key_is_the_last(keys, system_code, node, Some(idm));
    last_key_is_the_last(keys, system_code, node, None);
    if exists|i: int| is_for(keys, i, system_code, node, Some(idm)) {
        let key = keystore::last_key(keys, system_code, node, Some(idm))->Some_0;
        let i = choose|i: int| #[trigger]
            is_last_for(keys, i, system_code, node, Some(idm)) && keys[i].key == key;
        assert(is_last_for(keys, i, system_code, node, Some(idm)));
    } else if exists|i: int| is_for(keys, i, system_code, node, None) {
        let key = keystore::last_key(keys, system_code, node, None)->Some_0;
        let i = choose|i: int| #[trigger]
            is_last_for(keys, i, system_code, node, None) && keys[i].key == key;
        assert(is_last_for(keys, i, system_code, node, None));
    }
}

/// The systems of a key store are those of its keys for the system node, each once, in
/// the order in which they come up.
pub proof fn systems_are_those_with_a_system_key(keys: Seq<StoredKey>, key: StoredKey, code: u16)
    ensures
        keystore::systems_in(Seq::empty()) == Seq::<u16>::empty(),
        keystore::systems_in(keys.push(key)) == (if key.node == 0xFFFF && !keystore::systems_in(
            keys,
        ).contains(key.system_code) {
            keystore::systems_in(keys).push(key.system_code)
        } else {
            keystore::systems_in(keys)
        }),
        keystore::systems_in(keys).no_duplicates(),
        keystore::systems_in(keys).contains(code) <==> exists|i: int|
            0 <= i < keys.len() && (#[trigger] keys[i]).node == 0xFFFF && keys[i].system_code
                == code,
    decreases keys.len(),
{
    assert(keys.push(key).drop_last() =~= keys);
    if keys.len() > 0 {
        let rest = keys.drop_last();
        let last = keys.last();
        systems_are_those_with_a_system_key(rest, last, code);
        assert(rest.push(last) =~= keys);
        let before = keystore::systems_in(rest);
        let now = keystore::systems_in(keys);
        if now.contains(code) {
            let k = choose|k: int| 0 <= k < now.len() && now[k] == code;
            if k < before.len() {
                assert(before[k] == code);
                let i = choose|i: int|
                    0 <= i < rest.len() && (#[trigger] rest[i]).node == 0xFFFF
                        && rest[i].system_code == code;
                assert(keys[i] == rest[i]);
            } else {
                assert(keys[keys.len() - 1] == last);
            }
        }
        if exists|i: int|
            0 <= i < keys.len() && (#[trigger] keys[i]).node == 0xFFFF && keys[i].system_code
                == code {
            let i = choose|i: int|
                0 <= i < keys.len() && (#[trigger] keys[i]).node == 0xFFFF && keys[i].system_code
                    == code;
            if i < rest.len() {
                assert(rest[i] == keys[i]);
                let k = choose|k: int| 0 <= k < before.len() && before[k] == code;
                assert(now[k] == code);
            } else if before.contains(code) {
                let k = choose|k: int| 0 <= k < before.len() && before[k] == code;
                assert(now[k] == code);
            } else {
                assert(now[before.len() as int] == code);
            }
        }
    }
}

/// The services that take part with a key are those that have one, in their order.
pub proof fn keyed_services_are_those_with_a_key(services: Seq<u16>)
    ensures
        keystore::keyed_services(services) == services.filter(
            |code: u16| field_laws::has_key(code),
        ),
    decreases services.len(),
{
    reveal(Seq::filter);
    if services.len() > 0 {
        keyed_services_are_those_with_a_key(services.drop_last());
    }
}

/// The keys of an authentication are, node by node, the keys of its nodes on that card:
/// that of the system node, one for each area, and one for each service that has a key,
/// in their order.
pub proof fn keys_are_found_node_by_node(
    keys: Seq<StoredKey>,
    system_code: u16,
    idm: Block8,
    areas: Seq<u16>,
    services: Seq<u16>,
)
    ensures
        keystore::keys_found(keys, system_code, idm, areas, services) matches Ok(found) ==> {
            let keyed = services.filter(|code: u16| field_laws::has_key(code));
            &&& Some(found.system) == keystore::card_key(keys, system_code, 0xFFFF, idm)
            &&& found.areas.len() == areas.len()
            &&& forall|i: int|
                0 <= i < areas.len() ==> Some(#[trigger] found.areas[i]) == keystore::card_key(
                    keys,
                    system_code,
                    areas[i],
                    idm,
                )
            &&& found.services.len() == keyed.len()
            &&& forall|i: int|
                0 <= i < keyed.len() ==> Some(#[trigger] found.services[i]) == keystore::card_key(
                    keys,
                    system_code,
                    keyed[i],
                    idm,
                )
        },
{
    keyed_services_are_those_with_a_key(services);
    if let Ok(found) = keystore::keys_found(keys, system_code, idm, areas, services) {
        let nodes = keystore::keyed_nodes(areas, services);
        let keyed = keystore::keyed_services(services);
        assert(nodes[0] == 0xFFFF);
        assert forall|i: int| 0 <= i < areas.len() implies Some(#[trigger] found.areas[i])
            == keystore::card_key(keys, system_code, areas[i], idm) by {
            assert(nodes[i + 1] == areas[i]);
        }
        assert forall|i: int| 0 <= i < keyed.len() implies Some(#[trigger] found.services[i])
            == keystore::card_key(keys, system_code, keyed[i], idm) by {
            assert(nodes[i + 1 + areas.len()] == keyed[i]);
        }
    }
}

/// The keys of an authentication are found exactly if each of its nodes has one: the
/// system node, the areas, and the services that have a key. Otherwise the first that
/// has none, in this order, is named, with 400.
pub proof fn a_node_without_a_key_is_named(
    keys: Seq<StoredKey>,
    system_code: u16,
    idm: Block8,
    areas: Seq<u16>,
    services: Seq<u16>,
)
    ensures
        ({
            let nodes = seq![0xFFFFu16] + areas + services.filter(
                |code: u16| field_laws::has_key(code),
            );
            match keystore::keys_found(keys, system_code, idm, areas, services) {
                Ok(_) => forall|i: int|
                    0 <= i < nodes.len() ==> keystore::card_key(
                        keys,
                        system_code,
                        #[trigger] nodes[i],
                        idm,
                    ) is Some,
                Err(err) => {
                    &&& err.status == 400
                    &&& err.code is None
                    &&& exists|i: int|
                        {
                            &&& 0 <= i < nodes.len()
                            &&& keystore::card_key(keys, system_code, #[trigger] nodes[i], idm)
                                is None
                            &&& forall|j: int|
                                0 <= j < i ==> keystore::card_key(
                                    keys,
                                    system_code,
                                    #[trigger] nodes[j],
                                    idm,
                                ) is Some
                            &&& err.message == "no key for node 0x"@ + text::code_text(nodes[i])
                                + " of system 0x"@ + text::code_text(system_code)
                        }
                },
            }
        }),
{
    keyed_services_are_those_with_a_key(services);
    let nodes = keystore::keyed_nodes(areas, services);
    if !keystore::all_keyed(keys, system_code, nodes, idm) {
        let some = choose|i: int|
            0 <= i < nodes.len() && keystore::card_key(keys, system_code, nodes[i], idm) is None;
        let i = first_of_the_keyless(keys, system_code, nodes, idm, some);
        assert(keystore::first_keyless(keys, system_code, nodes, idm, i));
        let k = choose|k: int| keystore::first_keyless(keys, system_code, nodes, idm, k);
        assert(keystore::first_keyless(keys, system_code, nodes, idm, k));
        assert(keystore::card_key(keys, system_code, nodes[k], idm) is None);
    }
}

proof fn first_of_the_keyless(
    keys: Seq<StoredKey>,
    system_code: u16,
    nodes: Seq<u16>,
    idm: Block8,
    some: int,
) -> (first: int)
    requires
        0 <= some < nodes.len(),
        keystore::card_key(keys, system_code, nodes[some], idm) is None,
    ensures
        keystore::first_keyless(keys, system_code, nodes, idm, first),
    decreases some,
{
    if exists|j: int|
        0 <= j < some && keystore::card_key(keys, system_code, nodes[j], idm) is None {
        let j = choose|j: int|
            0 <= j < some && keystore::card_key(keys, system_code, nodes[j], idm) is None;
        first_of_the_keyless(keys, system_code, nodes, idm, j)
    } else {
        assert forall|j: int| 0 <= j < some implies keystore::card_key(
            keys,
            system_code,
            #[trigger] nodes[j],
            idm,
        ) is Some by {}
        some
    }
}

/// A worker polls for any card first, with its target, and ends with the error if that
/// fails. Then it waits for requests, and ends when none will come any more.
pub proof fn worker_polls_then_serves_requests<K>(
    keys: Seq<StoredKey>,
    idm: Block8,
    err: ErrorView,
)
    ensures
        worker::worker_next::<K>(keys, idm, WorkerPhaseView::Started) == (
        WorkerActionView::<K>::Poll {
            target: "212F"@,
            system_code: 0xFFFF,
            request_code: 0,
            time_slots: 0,
        }),
        worker::worker_next::<K>(keys, idm, WorkerPhaseView::Polled(Ok(())))
            == WorkerActionView::<K>::AwaitRequest,
        worker::worker_next::<K>(keys, idm, WorkerPhaseView::Polled(Err(err))) == (
        WorkerActionView::<K>::Stop { last: Some(OutView::Error(err)) }),
        worker::worker_next::<K>(keys, idm, WorkerPhaseView::Requested(None)) == (
        WorkerActionView::<K>::Stop { last: None }),
{
}

/// Keys are derived for the very request that came in, from the keys of its own nodes on
/// the worker's own card, and for no request with a node whose key is missing.
pub proof fn worker_takes_the_keys_of_the_request<K>(
    keys: Seq<StoredKey>,
    idm: Block8,
    request: StartView,
)
    ensures
        match worker::worker_next::<K>(keys, idm, WorkerPhaseView::Requested(Some(request))) {
            WorkerActionView::DeriveKeys { request: asked, keys: found } => {
                let keyed = request.services.filter(|code: u16| field_laws::has_key(code));
                &&& asked.system_code == request.system_code
                &&& asked.areas == request.areas
                &&& asked.services == request.services
                &&& Some(found.system) == keystore::card_key(
                    keys,
                    request.system_code,
                    0xFFFF,
                    idm,
                )
                &&& found.areas.len() == request.areas.len()
                &&& forall|i: int|
                    0 <= i < request.areas.len() ==> Some(#[trigger] found.areas[i])
                        == keystore::card_key(keys, request.system_code, request.areas[i], idm)
                &&& found.services.len() == keyed.len()
                &&& forall|i: int|
                    0 <= i < keyed.len() ==> Some(#[trigger] found.services[i])
                        == keystore::card_key(keys, request.system_code, keyed[i], idm)
            },
            WorkerActionView::Report { out: OutView::Error(err), clear_context } => {
                let nodes = seq![0xFFFFu16] + request.areas + request.services.filter(
                    |code: u16| field_laws::has_key(code),
                );
                &&& !clear_context
                &&& err.status == 400
                &&& exists|i: int|
                    0 <= i < nodes.len() && keystore::card_key(
                        keys,
                        request.system_code,
                        #[trigger] nodes[i],
                        idm,
                    ) is None && err.message == "no key for node 0x"@ + text::code_text(nodes[i])
                        + " of system 0x"@ + text::code_text(request.system_code)
            },
            _ => false,
        },
{
    keys_are_found_node_by_node(
        keys,
        request.system_code,
        idm,
        request.areas,
        request.services,
    );
    a_node_without_a_key_is_named(
        keys,
        request.system_code,
        idm,
        request.areas,
        request.services,
    );
}

/// Once its keys are derived, the very request that came in is authenticated: the same
/// system, all of its areas and all of its services, with the derived keys. If the
/// derivation failed, its error is reported.
pub proof fn worker_authenticates_the_whole_request<K>(
    keys: Seq<StoredKey>,
    idm: Block8,
    request: StartView,
    derived: K,
    err: ErrorView,
)
    ensures
        worker::worker_next(
            keys,
            idm,
            WorkerPhaseView::KeysDerived { request, derived: Ok(derived) },
        ) matches WorkerActionView::Authenticate { request: asked, derived: taken } && {
            &&& asked.system_code == request.system_code
            &&& asked.areas == request.areas
            &&& asked.services == request.services
            &&& taken == derived
        },
        worker::worker_next::<K>(
            keys,
            idm,
            WorkerPhaseView::KeysDerived { request, derived: Err(err) },
        ) == (WorkerActionView::<K>::Report { out: OutView::Error(err), clear_context: false }),
{
}

/// What a worker reports of an authentication: that it completed, with the issue
/// information and the DES session exactly as they were established; or its own error;
/// or, if there is no session or none of DES, that. The session is dropped either way.
pub proof fn worker_reports_what_was_established<K>(
    keys: Seq<StoredKey>,
    idm: Block8,
    ended: Result<Authentication, ErrorView>,
)
    ensures
        worker::worker_next::<K>(keys, idm, WorkerPhaseView::Authenticated(ended))
            matches WorkerActionView::Report { out, clear_context } && clear_context && match ended {
            Err(err) => out == OutView::Error(err),
            Ok(authentication) => match authentication.context {
                None => out == OutView::Error(
                    ErrorView {
                        status: 500,
                        message:
                            "authenticated context missing after mutual authentication"@,
                        code: None,
                    },
                ),
                Some(context) => match context.credentials {
                    Credentials::Other => out == OutView::Error(
                        ErrorView {
                            status: 500,
                            message: "unexpected secure session scheme (expected DES)"@,
                            code: None,
                        },
                    ),
                    Credentials::Des(key) => {
                        &&& out matches OutView::AuthComplete {
                            issue_id,
                            issue_parameter,
                            session,
                        }
                        &&& issue_id == authentication.issue_id
                        &&& issue_parameter == authentication.issue_parameter
                        &&& session.key == key
                        &&& session.transaction_id == context.transaction_id
                        &&& session.transaction_number == context.transaction_number
                    },
                },
            },
        },
        worker::material_in(None) is Err,
        ended matches Ok(authentication) ==> (worker::material_in(authentication.context)
            matches Ok(material) ==> {
            &&& authentication.context matches Some(context)
            &&& context.credentials == Credentials::Des(material.key)
            &&& material.transaction_id == context.transaction_id
            &&& material.transaction_number == context.transaction_number
        }),
{
}

} // verus!
