//! Which nodes a caller is allowed to authenticate.
//!
//! Because the client receives the session key and then drives the encrypted
//! commands itself, the server's remaining lever over what a client can *do* is
//! the set of nodes it agrees to authenticate. Restricting authentication to
//! read-only services means the card itself will refuse any Write in that
//! session.

use vstd::prelude::*;

use crate::text;


verus! {

/// The system node, which may appear in a service code list.
pub const SYSTEM_NODE_CODE: u16 = 0xFFFF;

/// The attributes of a service code: its six low bits.
pub open spec fn attributes(service_code: u16) -> int {
    service_code as int % 64
}

/// FeliCa service attributes that grant read-only access, in both the
/// "with key" and "without key" variants:
///
/// | Attribute  | Meaning                     |
/// |------------|-----------------------------|
/// | `0b001010` | Random read-only with key   |
/// | `0b001011` | Random read-only without key|
/// | `0b001110` | Cyclic read-only with key   |
/// | `0b001111` | Cyclic read-only without key|
/// | `0b010110` | Purse read-only with key    |
/// | `0b010111` | Purse read-only without key |
pub open spec fn read_only_attributes() -> Set<int> {
    set![0b001010int, 0b001011, 0b001110, 0b001111, 0b010110, 0b010111]
}

/// Whether the service's attributes grant read-only access.
pub open spec fn read_only(service_code: u16) -> bool {
    read_only_attributes().contains(attributes(service_code))
}

/// Whether a node takes part in the authentication with a key of its own. The low
/// bit of a service code says that it is open without a key; the system node always
/// has one, though its low bit is set.
pub open spec fn key_required(service_code: u16) -> bool {
    service_code == SYSTEM_NODE_CODE || service_code as int % 2 == 0
}

/// Whether the node at `i` requires a key and stands after a key-free one.
pub open spec fn misplaced(services: Seq<u16>, i: int) -> bool {
    &&& 0 <= i < services.len()
    &&& key_required(services[i])
    &&& exists|j: int| 0 <= j < i && !key_required(#[trigger] services[j])
}

/// Whether some node of the list requires a key.
pub open spec fn has_key_required(services: Seq<u16>) -> bool {
    exists|i: int| 0 <= i < services.len() && key_required(#[trigger] services[i])
}

/// A list that a card accepts: at least one node requires a key, and no such node
/// comes after a key-free one.
pub open spec fn well_shaped(services: Seq<u16>) -> bool {
    &&& has_key_required(services)
    &&& forall|i: int| !misplaced(services, i)
}

/// Whether `i` is the first place where a key-requiring node comes too late.
pub open spec fn first_misplaced(services: Seq<u16>, i: int) -> bool {
    &&& misplaced(services, i)
    &&& forall|j: int| j < i ==> !misplaced(services, j)
}

/// What is said of a key-requiring node that comes too late.
pub open spec fn misplaced_message(code: u16) -> Seq<char> {
    "service 0x"@ + text::code_text(code)
        + " requires a key and must be listed before key-free services"@
}

/// What is said of a list in which no node requires a key.
pub open spec fn keyless_message() -> Seq<char> {
    "services must include at least one node that requires a key"@
}

/// What is wrong with a service list, if a card would refuse it.
pub open spec fn shape_refusal(services: Seq<u16>) -> Option<Seq<char>> {
    if well_shaped(services) {
        None
    } else if !has_key_required(services) {
        Some(keyless_message())
    } else {
        Some(misplaced_message(services[choose|i: int| first_misplaced(services, i)]))
    }
}

/// Whether the service's attributes grant read-only access and nothing more.
pub fn is_read_only_service(service_code: u16) -> (answer: bool)
    ensures
        answer == read_only(service_code),
{
    matches!(
        service_code % 64,
        0b001010 | 0b001011 | 0b001110 | 0b001111 | 0b010110 | 0b010111
    )
}

/// Whether a service code has a key of its own, or is the system node.
pub fn requires_key(service_code: u16) -> (answer: bool)
    ensures
        answer == key_required(service_code),
{
    // The system node is authentication-required even though its low bit
    // reads as key-free.
    service_code == SYSTEM_NODE_CODE || service_code % 2 == 0
}

/// Reject a service list the card itself would refuse, so the caller gets a clear
/// error instead of an opaque authentication failure. A FeliCa service code list
/// must contain at least one node that requires a key, and every key-requiring
/// node must come before any key-free one.
pub fn check_service_list_shape(services: &[u16]) -> (checked: Result<(), String>)
    ensures
        checked is Ok <==> well_shaped(services@),
        checked matches Err(message) ==> shape_refusal(services@) == Some(message@),
{
    let mut any_key_required = false;
    let mut seen_key_free = false;
    for i in 0..services.len()
        invariant
            any_key_required == exists|j: int|
                0 <= j < i && key_required(#[trigger] services@[j]),
            seen_key_free == exists|j: int| 0 <= j < i && !key_required(#[trigger] services@[j]),
            forall|j: int| j < i ==> !misplaced(services@, j),
    {
        let raw = services[i];
        if requires_key(raw) {
            if seen_key_free {
                let message = "service 0x".to_owned().concat(text::format_code(raw).as_str()).concat(
                    " requires a key and must be listed before key-free services",
                );
                proof {
                    assert(first_misplaced(services@, i as int));
                    let first = choose|k: int| first_misplaced(services@, k);
                    assert(first_misplaced(services@, first) && first == i);
                }
                return Err(message);
            }
            any_key_required = true;
        } else {
            seen_key_free = true;
        }
    }
    if !any_key_required {
        return Err("services must include at least one node that requires a key".to_owned());
    }
    Ok(())
}

/// A card accepts exactly the lists that consist of nodes that require a key, at least
/// one, and then of key-free ones.
pub proof fn shape_is_a_keyed_head_and_a_key_free_tail(services: Seq<u16>)
    ensures
        well_shaped(services) <==> exists|n: int| #[trigger] keyed_head(services, n),
{
    if well_shaped(services) {
        let n = leading_keyed(services);
        leading_keyed_is_a_head(services);
        assert(n > 0) by {
            let k = choose|k: int| 0 <= k < services.len() && key_required(services[k]);
            if n == 0 {
                assert(misplaced(services, k));
            }
        }
        assert forall|i: int| n <= i < services.len() implies !key_required(
            #[trigger] services[i],
        ) by {
            if key_required(services[i]) {
                assert(misplaced(services, i));
            }
        }
        assert(keyed_head(services, n));
    }
    if exists|n: int| #[trigger] keyed_head(services, n) {
        let n = choose|n: int| #[trigger] keyed_head(services, n);
        assert(key_required(services[0]));
        assert forall|i: int| !misplaced(services, i) by {
            if misplaced(services, i) {
                let j = choose|j: int| 0 <= j < i && !key_required(#[trigger] services[j]);
                assert(n <= j < i);
            }
        }
    }
}

/// Whether the list is `n` nodes that require a key, at least one, and after them
/// nothing but key-free ones.
pub open spec fn keyed_head(services: Seq<u16>, n: int) -> bool {
    &&& 0 < n <= services.len()
    &&& forall|i: int| 0 <= i < n ==> key_required(#[trigger] services[i])
    &&& forall|i: int| n <= i < services.len() ==> !key_required(#[trigger] services[i])
}

/// How many nodes at the head of the list require a key.
spec fn leading_keyed(services: Seq<u16>) -> int
    decreases services.len(),
{
    if services.len() == 0 {
        0
    } else {
        let n = leading_keyed(services.drop_last());
        if n == services.len() - 1 && key_required(services.last()) {
            n + 1
        } else {
            n
        }
    }
}

proof fn leading_keyed_is_a_head(services: Seq<u16>)
    ensures
        0 <= leading_keyed(services) <= services.len(),
        forall|i: int| 0 <= i < leading_keyed(services) ==> key_required(#[trigger] services[i]),
        leading_keyed(services) < services.len() ==> !key_required(
            services[leading_keyed(services)],
        ),
    decreases services.len(),
{
    if services.len() > 0 {
        let rest = services.drop_last();
        leading_keyed_is_a_head(rest);
        assert forall|i: int| 0 <= i < leading_keyed(services) implies key_required(
            #[trigger] services[i],
        ) by {
            if i < rest.len() {
                assert(services[i] == rest[i]);
            }
        }
        if leading_keyed(rest) < rest.len() {
            assert(services[leading_keyed(rest)] == rest[leading_keyed(rest)]);
        }
    }
}

/// Two services that differ only in whether they need a key are alike: both are
/// read-only, or neither is.
pub proof fn read_only_with_and_without_key(a: u16, b: u16)
    requires
        a as int / 2 == b as int / 2,
    ensures
        read_only(a) == read_only(b),
{
    let x = attributes(a);
    let y = attributes(b);
    assert(x / 2 == y / 2);
}

/// An area carries no attribute, and the system node carries all of them: neither
/// passes for a read-only service.
pub proof fn only_services_are_read_only(code: u16)
    requires
        attributes(code) == 0 || code == SYSTEM_NODE_CODE,
    ensures
        !read_only(code),
{
}

} // verus!
