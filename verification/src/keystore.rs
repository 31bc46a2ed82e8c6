//! The long-term DES keys, and which of them an authentication takes.
//!
//! A key belongs to a node of a system. It is either system-wide or meant for one
//! card; for that card its own key is preferred. Of several keys for the same node
//! and card the one that was added last counts.

use vstd::prelude::*;

use crate::error;
use crate::error::ErrorView;
use crate::error::ProtocolError;
use crate::fields;
use crate::policy;
use crate::table::Block8;
use crate::text;

verus! {

/// A DES key of a node, system-wide or of one card.
#[derive(Clone, Copy, Debug)]
pub struct StoredKey {
    pub system_code: u16,
    pub node: u16,
    pub idm: Option<Block8>,
    pub key: Block8,
}

/// The keys of one authentication: those of the system and of the areas, and those
/// of the services that require one, each in the order of the request.
#[derive(Debug)]
pub struct NodeKeys {
    pub system: Block8,
    pub areas: Vec<Block8>,
    pub services: Vec<Block8>,
}

/// What a [`NodeKeys`] holds.
#[verifier::ext_equal]
pub struct NodeKeysView {
    pub system: Block8,
    pub areas: Seq<Block8>,
    pub services: Seq<Block8>,
}

impl View for NodeKeys {
    type V = NodeKeysView;

    open spec fn view(&self) -> NodeKeysView {
        NodeKeysView { system: self.system, areas: self.areas@, services: self.services@ }
    }
}

/// The long-term keys, in the order in which they were added.
#[derive(Debug)]
pub struct KeyStore {
    keys: Vec<StoredKey>,
}

impl View for KeyStore {
    type V = Seq<StoredKey>;

    closed spec fn view(&self) -> Seq<StoredKey> {
        self.keys@
    }
}

/// One line of a key file, its fields as they are written.
#[derive(Debug)]
pub struct KeyLine {
    pub system_code: String,
    pub node: String,
    pub algo: String,
    pub idm: Option<String>,
    pub key: String,
}

/// What is wrong with a line.
pub open spec fn bad_line(field: Seq<char>) -> ErrorView {
    error::error(500, "invalid key record: "@ + field)
}

/// The key that a line holds. AES keys are passed over, whatever else such a line
/// says; of a DES key, the numbers are hexadecimal and the bytes are eight.
pub open spec fn key_in(line: KeyLine) -> Result<Option<StoredKey>, ErrorView> {
    if line.algo@ == "AES"@ {
        Ok(None)
    } else if line.algo@ != "DES"@ {
        Err(bad_line("algo"@))
    } else {
        let system_code = fields::number_in(line.system_code@, 16);
        let node = fields::number_in(line.node@, 16);
        let idm = match line.idm {
            Some(written) => fields::block_in(written@),
            None => None,
        };
        let key = fields::block_in(line.key@);
        if system_code is None {
            Err(bad_line("system_code"@))
        } else if node is None {
            Err(bad_line("node"@))
        } else if line.idm is Some && idm is None {
            Err(bad_line("idm"@))
        } else if key is None {
            Err(bad_line("key"@))
        } else {
            Ok(
                Some(
                    StoredKey {
                        system_code: system_code->Some_0,
                        node: node->Some_0,
                        idm,
                        key: key->Some_0,
                    },
                ),
            )
        }
    }
}

/// The keys that these lines hold, in their order.
pub open spec fn keys_in(lines: Seq<KeyLine>) -> Seq<StoredKey>
    decreases lines.len(),
{
    if lines.len() == 0 {
        Seq::empty()
    } else {
        match key_in(lines.last()) {
            Ok(Some(key)) => keys_in(lines.drop_last()).push(key),
            _ => keys_in(lines.drop_last()),
        }
    }
}

/// Whether `i` is the first line that cannot be read.
pub open spec fn first_bad_line(lines: Seq<KeyLine>, i: int) -> bool {
    &&& 0 <= i < lines.len()
    &&& key_in(lines[i]) is Err
    &&& forall|j: int| 0 <= j < i ==> key_in(#[trigger] lines[j]) is Ok
}

/// The systems that there is a system key for, each once, in the order in which they
/// come up.
pub open spec fn systems_in(keys: Seq<StoredKey>) -> Seq<u16>
    decreases keys.len(),
{
    if keys.len() == 0 {
        Seq::empty()
    } else {
        let before = systems_in(keys.drop_last());
        let key = keys.last();
        if key.node == policy::SYSTEM_NODE_CODE && !before.contains(key.system_code) {
            before.push(key.system_code)
        } else {
            before
        }
    }
}

/// Whether this is a key for that node and that owner: one card, or all of them.
pub open spec fn belongs(key: StoredKey, system_code: u16, node: u16, owner: Option<Block8>) -> bool {
    key.system_code == system_code && key.node == node && key.idm == owner
}

/// The last key in the list for that node and that owner.
pub open spec fn last_key(
    keys: Seq<StoredKey>,
    system_code: u16,
    node: u16,
    owner: Option<Block8>,
) -> Option<Block8>
    decreases keys.len(),
{
    if keys.len() == 0 {
        None
    } else if belongs(keys.last(), system_code, node, owner) {
        Some(keys.last().key)
    } else {
        last_key(keys.drop_last(), system_code, node, owner)
    }
}

/// The key to use for that node on the card `idm`: the card's own key, or else the
/// system-wide one.
pub open spec fn card_key(
    keys: Seq<StoredKey>,
    system_code: u16,
    node: u16,
    idm: Block8,
) -> Option<Block8> {
    match last_key(keys, system_code, node, Some(idm)) {
        Some(key) => Some(key),
        None => last_key(keys, system_code, node, None),
    }
}

/// The keys to use for these nodes, in their order.
pub open spec fn card_keys(
    keys: Seq<StoredKey>,
    system_code: u16,
    nodes: Seq<u16>,
    idm: Block8,
) -> Seq<Block8> {
    nodes.map_values(|node: u16| card_key(keys, system_code, node, idm)->Some_0)
}

/// The services that take part in the authentication with a key, in their order.
pub open spec fn keyed_services(services: Seq<u16>) -> Seq<u16> {
    services.filter(|code: u16| policy::key_required(code))
}

/// The nodes that need a key: the system, every area, and the services that
/// require one.
pub open spec fn keyed_nodes(areas: Seq<u16>, services: Seq<u16>) -> Seq<u16> {
    seq![policy::SYSTEM_NODE_CODE] + areas + keyed_services(services)
}

/// Whether `i` is the first of these nodes without a key.
pub open spec fn first_keyless(
    keys: Seq<StoredKey>,
    system_code: u16,
    nodes: Seq<u16>,
    idm: Block8,
    i: int,
) -> bool {
    &&& 0 <= i < nodes.len()
    &&& card_key(keys, system_code, nodes[i], idm) is None
    &&& forall|j: int|
        0 <= j < i ==> card_key(keys, system_code, #[trigger] nodes[j], idm) is Some
}

/// Whether there is a key for each of these nodes.
pub open spec fn all_keyed(
    keys: Seq<StoredKey>,
    system_code: u16,
    nodes: Seq<u16>,
    idm: Block8,
) -> bool {
    forall|i: int|
        0 <= i < nodes.len() ==> card_key(keys, system_code, #[trigger] nodes[i], idm) is Some
}

/// What is said of a node without a key.
pub open spec fn no_key_message(system_code: u16, node: u16) -> Seq<char> {
    "no key for node 0x"@ + text::code_text(node) + " of system 0x"@ + text::code_text(system_code)
}

/// The keys that authenticating these nodes on the card `idm` takes, or the error for
/// the first node without one.
pub open spec fn keys_found(
    keys: Seq<StoredKey>,
    system_code: u16,
    idm: Block8,
    areas: Seq<u16>,
    services: Seq<u16>,
) -> Result<NodeKeysView, ErrorView> {
    let nodes = keyed_nodes(areas, services);
    if all_keyed(keys, system_code, nodes, idm) {
        Ok(
            NodeKeysView {
                system: card_key(keys, system_code, policy::SYSTEM_NODE_CODE, idm)->Some_0,
                areas: card_keys(keys, system_code, areas, idm),
                services: card_keys(keys, system_code, keyed_services(services), idm),
            },
        )
    } else {
        let i = choose|i: int| first_keyless(keys, system_code, nodes, idm, i);
        Err(error::error(400, no_key_message(system_code, nodes[i])))
    }
}

/// Whether two blocks hold the same bytes.
pub fn same_block(a: &Block8, b: &Block8) -> (same: bool)
    ensures
        same == (*a == *b),
{
    for i in 0..8usize
        invariant
            forall|j: int| 0 <= j < i ==> a[j] == b[j],
    {
        if a[i] != b[i] {
            return false;
        }
    }
    assert(*a =~= *b);
    true
}

/// Whether two owners are the same card, or both all cards.
fn same_owner(a: &Option<Block8>, b: &Option<Block8>) -> (same: bool)
    ensures
        same == (*a == *b),
{
    match (a, b) {
        (Some(a), Some(b)) => same_block(a, b),
        (None, None) => true,
        _ => false,
    }
}

/// Whether the list holds this code.
fn holds_code(codes: &Vec<u16>, code: u16) -> (held: bool)
    ensures
        held == codes@.contains(code),
{
    for i in 0..codes.len()
        invariant
            forall|j: int| 0 <= j < i ==> codes@[j] != code,
    {
        if codes[i] == code {
            return true;
        }
    }
    false
}

/// The services of the list that require a key.
fn services_with_key(services: &[u16]) -> (kept: Vec<u16>)
    ensures
        kept@ == keyed_services(services@),
{
    let mut kept: Vec<u16> = Vec::new();
    for i in 0..services.len()
        invariant
            kept@ == keyed_services(services@.take(i as int)),
    {
        proof {
            reveal(Seq::filter);
            assert(services@.take(i + 1).drop_last() =~= services@.take(i as int));
        }
        if policy::requires_key(services[i]) {
            kept.push(services[i]);
        }
    }
    assert(services@.take(services@.len() as int) =~= services@);
    kept
}

/// The error for a line in which this field cannot be read.
fn bad_field(field: &str) -> (err: ProtocolError)
    ensures
        err@ == bad_line(field@),
{
    ProtocolError::internal("invalid key record: ".to_owned().concat(field))
}

/// Reads the key of a line; nothing for a line with an AES key.
pub fn read_key(line: &KeyLine) -> (key: Result<Option<StoredKey>, ProtocolError>)
    ensures
        match key {
            Ok(key) => key_in(*line) == Ok::<Option<StoredKey>, ErrorView>(key),
            Err(err) => key_in(*line) == Err::<Option<StoredKey>, ErrorView>(err@),
        },
{
    if line.algo == "AES".to_owned() {
        return Ok(None);
    }
    if line.algo != "DES".to_owned() {
        return Err(bad_field("algo"));
    }
    let system_code = match fields::parse_hex(line.system_code.as_str()) {
        Some(number) => number,
        None => return Err(bad_field("system_code")),
    };
    let node = match fields::parse_hex(line.node.as_str()) {
        Some(number) => number,
        None => return Err(bad_field("node")),
    };
    let idm = match &line.idm {
        Some(written) => match fields::parse_block(written.as_str()) {
            Some(block) => Some(block),
            None => return Err(bad_field("idm")),
        },
        None => None,
    };
    let key = match fields::parse_block(line.key.as_str()) {
        Some(block) => block,
        None => return Err(bad_field("key")),
    };
    Ok(Some(StoredKey { system_code, node, idm, key }))
}

impl KeyStore {
    /// A store with the keys of these lines. It takes all of them or, if one cannot be
    /// read, none.
    pub fn from_lines(lines: &Vec<KeyLine>) -> (store: Result<Self, ProtocolError>)
        ensures
            match store {
                Ok(store) => {
                    &&& forall|i: int| 0 <= i < lines@.len() ==> key_in(#[trigger] lines@[i]) is Ok
                    &&& store@ == keys_in(lines@)
                },
                Err(err) => exists|i: int|
                    {
                        &&& #[trigger] first_bad_line(lines@, i)
                        &&& key_in(lines@[i]) == Err::<Option<StoredKey>, ErrorView>(err@)
                    },
            },
    {
        let mut store = KeyStore::new();
        for i in 0..lines.len()
            invariant
                forall|j: int| 0 <= j < i ==> key_in(#[trigger] lines@[j]) is Ok,
                store@ == keys_in(lines@.take(i as int)),
        {
            assert(lines@.take(i + 1).drop_last() =~= lines@.take(i as int));
            match read_key(&lines[i]) {
                Ok(Some(key)) => store.add(key),
                Ok(None) => {},
                Err(err) => {
                    assert(first_bad_line(lines@, i as int));
                    return Err(err);
                },
            }
        }
        assert(lines@.take(lines@.len() as int) =~= lines@);
        Ok(store)
    }

    /// The systems that there is a system key for.
    pub fn system_codes(&self) -> (codes: Vec<u16>)
        ensures
            codes@ == systems_in(self@),
    {
        let mut codes: Vec<u16> = Vec::new();
        for i in 0..self.keys.len()
            invariant
                codes@ == systems_in(self.keys@.take(i as int)),
        {
            assert(self.keys@.take(i + 1).drop_last() =~= self.keys@.take(i as int));
            let key = &self.keys[i];
            if key.node == policy::SYSTEM_NODE_CODE && !holds_code(&codes, key.system_code) {
                codes.push(key.system_code);
            }
        }
        assert(self.keys@.take(self.keys@.len() as int) =~= self.keys@);
        codes
    }

    /// A store without keys.
    pub fn new() -> (store: Self)
        ensures
            store@ == Seq::<StoredKey>::empty(),
    {
        KeyStore { keys: Vec::new() }
    }

    /// Adds a key. From here on it counts before all others for its node and owner.
    pub fn add(&mut self, key: StoredKey)
        ensures
            final(self)@ == old(self)@.push(key),
    {
        self.keys.push(key);
    }

    /// The last key for that node and that owner.
    fn find(&self, system_code: u16, node: u16, owner: Option<Block8>) -> (found: Option<Block8>)
        ensures
            found == last_key(self@, system_code, node, owner),
    {
        let mut i: usize = self.keys.len();
        assert(self.keys@.take(i as int) =~= self.keys@);
        while i > 0
            invariant
                i <= self.keys@.len(),
                last_key(self.keys@.take(i as int), system_code, node, owner) == last_key(
                    self.keys@,
                    system_code,
                    node,
                    owner,
                ),
            decreases i,
        {
            i = i - 1;
            let key = &self.keys[i];
            assert(self.keys@.take(i + 1).drop_last() =~= self.keys@.take(i as int));
            if key.system_code == system_code && key.node == node && same_owner(&key.idm, &owner) {
                return Some(key.key);
            }
        }
        None
    }

    /// The key to use for a node on this card: the card's own key if there is one,
    /// otherwise the system-wide key.
    pub fn lookup(&self, system_code: u16, node: u16, idm: &Block8) -> (found: Option<Block8>)
        ensures
            found == card_key(self@, system_code, node, *idm),
    {
        match self.find(system_code, node, Some(*idm)) {
            Some(key) => Some(key),
            None => self.find(system_code, node, None),
        }
    }

    /// The keys for these nodes, or the error for the first one without a key.
    fn lookup_all(&self, system_code: u16, nodes: &[u16], idm: &Block8) -> (found: Result<
        Vec<Block8>,
        ProtocolError,
    >)
        ensures
            match found {
                Ok(keys) => {
                    &&& all_keyed(self@, system_code, nodes@, *idm)
                    &&& keys@ == card_keys(self@, system_code, nodes@, *idm)
                },
                Err(err) => exists|i: int|
                    {
                        &&& #[trigger] first_keyless(self@, system_code, nodes@, *idm, i)
                        &&& err@ == error::error(400, no_key_message(system_code, nodes@[i]))
                    },
            },
    {
        let mut keys: Vec<Block8> = Vec::new();
        for i in 0..nodes.len()
            invariant
                keys@.len() == i,
                forall|j: int|
                    0 <= j < i ==> card_key(self@, system_code, #[trigger] nodes@[j], *idm)
                        is Some,
                forall|j: int|
                    0 <= j < i ==> #[trigger] keys@[j] == card_key(
                        self@,
                        system_code,
                        nodes@[j],
                        *idm,
                    )->Some_0,
        {
            match self.lookup(system_code, nodes[i], idm) {
                Some(key) => keys.push(key),
                None => {
                    assert(first_keyless(self@, system_code, nodes@, *idm, i as int));
                    let message = "no key for node 0x".to_owned().concat(
                        text::format_code(nodes[i]).as_str(),
                    ).concat(" of system 0x").concat(text::format_code(system_code).as_str());
                    return Err(ProtocolError::bad_request(message));
                },
            }
        }
        assert(keys@ =~= card_keys(self@, system_code, nodes@, *idm));
        Ok(keys)
    }

    /// There is only one first node without a key.
    proof fn first_keyless_is_the_one(
        &self,
        system_code: u16,
        nodes: Seq<u16>,
        idm: Block8,
        i: int,
    )
        requires
            first_keyless(self@, system_code, nodes, idm, i),
        ensures
            !all_keyed(self@, system_code, nodes, idm),
            i == choose|k: int| first_keyless(self@, system_code, nodes, idm, k),
    {
        let k = choose|k: int| first_keyless(self@, system_code, nodes, idm, k);
        assert(first_keyless(self@, system_code, nodes, idm, k));
        assert(card_key(self@, system_code, nodes[i], idm) is None);
        assert(card_key(self@, system_code, nodes[k], idm) is None);
    }

    /// The keys that authenticating these nodes on this card takes. A service that is
    /// open without a key contributes none.
    pub fn keys_for(
        &self,
        system_code: u16,
        idm: &Block8,
        areas: &[u16],
        services: &[u16],
    ) -> (found: Result<NodeKeys, ProtocolError>)
        ensures
            crate::session::outcome(found) == keys_found(
                self@,
                system_code,
                *idm,
                areas@,
                services@,
            ),
    {
        let ghost nodes = keyed_nodes(areas@, services@);
        let keyed = services_with_key(services);
        let system_node: [u16; 1] = [policy::SYSTEM_NODE_CODE];
        let systems = match self.lookup_all(system_code, system_node.as_slice(), idm) {
            Ok(keys) => keys,
            Err(err) => {
                proof {
                    let i = choose|i: int|
                        first_keyless(self@, system_code, system_node@, *idm, i);
                    self.first_keyless_is_the_one(system_code, nodes, *idm, i);
                }
                return Err(err);
            },
        };
        assert(card_key(self@, system_code, system_node@[0], *idm) is Some);
        let found_areas = match self.lookup_all(system_code, areas, idm) {
            Ok(keys) => keys,
            Err(err) => {
                proof {
                    let i = choose|i: int|
                        #[trigger] first_keyless(self@, system_code, areas@, *idm, i) && err@
                            == error::error(400, no_key_message(system_code, areas@[i]));
                    assert forall|j: int| 0 <= j < i + 1 implies card_key(
                        self@,
                        system_code,
                        #[trigger] nodes[j],
                        *idm,
                    ) is Some by {
                        if j > 0 {
                            assert(nodes[j] == areas@[j - 1]);
                        }
                    }
                    self.first_keyless_is_the_one(system_code, nodes, *idm, i + 1);
                }
                return Err(err);
            },
        };
        let found_services = match self.lookup_all(system_code, keyed.as_slice(), idm) {
            Ok(keys) => keys,
            Err(err) => {
                proof {
                    let i = choose|i: int|
                        #[trigger] first_keyless(self@, system_code, keyed@, *idm, i) && err@
                            == error::error(400, no_key_message(system_code, keyed@[i]));
                    let at = i + 1 + areas@.len();
                    assert forall|j: int| 0 <= j < at implies card_key(
                        self@,
                        system_code,
                        #[trigger] nodes[j],
                        *idm,
                    ) is Some by {
                        if 0 < j <= areas@.len() {
                            assert(nodes[j] == areas@[j - 1]);
                        } else if j > 0 {
                            assert(nodes[j] == keyed@[j - 1 - areas@.len()]);
                        }
                    }
                    self.first_keyless_is_the_one(system_code, nodes, *idm, at);
                }
                return Err(err);
            },
        };
        proof {
            assert forall|j: int| 0 <= j < nodes.len() implies card_key(
                self@,
                system_code,
                #[trigger] nodes[j],
                *idm,
            ) is Some by {
                if 0 < j <= areas@.len() {
                    assert(nodes[j] == areas@[j - 1]);
                } else if j > 0 {
                    assert(nodes[j] == keyed@[j - 1 - areas@.len()]);
                }
            }
        }
        Ok(NodeKeys { system: systems[0], areas: found_areas, services: found_services })
    }
}

} // verus!
