use crate::pattern::{
    first_match, has_match, lemma_first_match_unique, scan, slot_table_pattern,
    slot_table_signature, zone_tag_pattern, zone_tag_signature,
};
use vstd::prelude::*;

verus! {

/// Why one attempt at finding the addresses failed; both are cured by trying
/// again from the signature scan.
#[derive(Clone, Copy, Debug, PartialEq, Eq, Structural)]
pub enum DiscoveryError {
    /// A signature matches nowhere in the module's bytes.
    ScanFailed,
    /// A pointer on the way to a field could not be read.
    PointerUnresolved,
}

/// One hop through a 32-bit pointer and a trailing offset: read a pointer at
/// `base + offset1`, read a second pointer at that value plus `offset2`, and add
/// `offset3` to the second.
#[derive(Clone, Copy, Debug, PartialEq, Eq, Structural)]
pub struct PointerPath {
    pub offset1: u32,
    pub offset2: u32,
    pub offset3: u32,
}

/// The addresses of the watched fields, valid while one process stays attached.
#[derive(Clone, Copy, Debug, PartialEq, Eq, Structural)]
pub struct Addresses {
    pub state: u64,
    pub levelid: u64,
    pub startindicator: u64,
    pub zoneselectongamecomplete: u64,
    pub zoneindicator: u64,
}

/// A 32-bit pointer plus an offset, as a 64-bit address.
pub open spec fn offset_addr(base: u32, off: u32) -> u64 {
    (base as int + off as int) as u64
}

/// `x` is what walking `p` from `base` gives, for some values that `read` may
/// return at the two addresses on the way.
pub open spec fn resolved_via<R: Fn(u64) -> Option<u32>>(
    read: &R,
    base: u32,
    p: PointerPath,
    x: u64,
) -> bool {
    exists|v1: u32, v2: u32|
        {
            &&& read.ensures((offset_addr(base, p.offset1),), Some(v1))
            &&& read.ensures((offset_addr(v1, p.offset2),), Some(v2))
            &&& x == offset_addr(v2, p.offset3)
        }
}

/// Some read on the way along `p` from `base` may fail: the first, or the second
/// after a first that succeeded.
pub open spec fn unresolved_via<R: Fn(u64) -> Option<u32>>(
    read: &R,
    base: u32,
    p: PointerPath,
) -> bool {
    ||| read.ensures((offset_addr(base, p.offset1),), None)
    ||| exists|v1: u32|
        {
            &&& read.ensures((offset_addr(base, p.offset1),), Some(v1))
            &&& read.ensures((offset_addr(v1, p.offset2),), None)
        }
}

/// Path from the slot table to the game state byte.
pub open spec fn state_path() -> PointerPath {
    PointerPath { offset1: (4 * 89) as u32, offset2: 8, offset3: 0x9D8 }
}

/// Path from the slot table to the level byte.
pub open spec fn levelid_path() -> PointerPath {
    PointerPath { offset1: (4 * 123) as u32, offset2: 1, offset3: 0 }
}

/// Path from the slot table to the start indicator.
pub open spec fn startindicator_path() -> PointerPath {
    PointerPath { offset1: (4 * 30) as u32, offset2: 8, offset3: 0x9D8 }
}

/// Path from the slot table to the completed-game zone select flag.
pub open spec fn zoneselect_path() -> PointerPath {
    PointerPath { offset1: (4 * 91) as u32, offset2: 8, offset3: 0x9D8 }
}

/// Offset of the slot table pointer within a match of the slot table signature.
pub const SLOT_TABLE_OPERAND: u64 = 14;

/// Offset of the zone tag's address within a match of the zone tag signature.
pub const ZONE_TAG_OPERAND: u64 = 7;

/// `t` is what one successful attempt yields from a module loaded at `base`
/// with bytes `module`, for some values that `read` may return.
pub open spec fn discovered_via<R: Fn(u64) -> Option<u32>>(
    read: &R,
    base: u64,
    module: Seq<u8>,
    t: Addresses,
) -> bool {
    let slot_at = (base + first_match(slot_table_pattern(), module) + SLOT_TABLE_OPERAND) as u64;
    let zone_at = (base + first_match(zone_tag_pattern(), module) + ZONE_TAG_OPERAND) as u64;
    &&& exists|root: u32|
        {
            &&& read.ensures((slot_at,), Some(root))
            &&& resolved_via(read, root, state_path(), t.state)
            &&& resolved_via(read, root, levelid_path(), t.levelid)
            &&& resolved_via(read, root, startindicator_path(), t.startindicator)
            &&& resolved_via(read, root, zoneselect_path(), t.zoneselectongamecomplete)
        }
    &&& exists|z: u32| read.ensures((zone_at,), Some(z)) && t.zoneindicator == z as u64
}

/// After both scans succeeded, some read that an attempt makes may fail.
pub open spec fn failed_via<R: Fn(u64) -> Option<u32>>(read: &R, base: u64, module: Seq<u8>) -> bool {
    let slot_at = (base + first_match(slot_table_pattern(), module) + SLOT_TABLE_OPERAND) as u64;
    let zone_at = (base + first_match(zone_tag_pattern(), module) + ZONE_TAG_OPERAND) as u64;
    ||| read.ensures((slot_at,), None)
    ||| read.ensures((zone_at,), None)
    ||| exists|root: u32|
        {
            &&& read.ensures((slot_at,), Some(root))
            &&& {
                ||| unresolved_via(read, root, state_path())
                ||| unresolved_via(read, root, levelid_path())
                ||| unresolved_via(read, root, startindicator_path())
                ||| unresolved_via(read, root, zoneselect_path())
            }
        }
}

/// Walks `path` from `base`, reading 32-bit pointers with `read`; fails if either
/// read fails.
pub fn resolve<R: Fn(u64) -> Option<u32>>(read: &R, base: u32, path: PointerPath) -> (r: Result<
    u64,
    DiscoveryError,
>)
    requires
        forall|a: u64| read.requires((a,)),
    ensures
        match r {
            Ok(x) => resolved_via(read, base, path, x),
            Err(e) => e == DiscoveryError::PointerUnresolved && unresolved_via(read, base, path),
        },
{
    let first = match read(base as u64 + path.offset1 as u64) {
        None => return Err(DiscoveryError::PointerUnresolved),
        Some(v) => v,
    };
    let second = match read(first as u64 + path.offset2 as u64) {
        None => {
            proof {
                assert(read.ensures((offset_addr(base, path.offset1),), Some(first)));
                assert(read.ensures((offset_addr(first, path.offset2),), None));
            }
            return Err(DiscoveryError::PointerUnresolved);
        },
        Some(v) => v,
    };
    assert(resolved_via(read, base, path, offset_addr(second, path.offset3))) by {
        assert(read.ensures((offset_addr(base, path.offset1),), Some(first)));
        assert(read.ensures((offset_addr(first, path.offset2),), Some(second)));
    }
    Ok(second as u64 + path.offset3 as u64)
}

impl Addresses {
    /// One attempt at finding the addresses in a module loaded at `module_base`
    /// whose bytes are `module`. Either every address is found or the attempt
    /// fails as a whole; it fails with `ScanFailed` exactly when a signature
    /// matches nowhere.
    pub fn init<R: Fn(u64) -> Option<u32>>(module_base: u64, module: &[u8], read: &R) -> (r: Result<
        Addresses,
        DiscoveryError,
    >)
        requires
            module_base + module@.len() <= u64::MAX,
            forall|a: u64| read.requires((a,)),
        ensures
            (r == Err::<Addresses, DiscoveryError>(DiscoveryError::ScanFailed)) <==> !(has_match(
                slot_table_pattern(),
                module@,
            ) && has_match(zone_tag_pattern(), module@)),
            r matches Ok(t) ==> discovered_via(read, module_base, module@, t),
            r == Err::<Addresses, DiscoveryError>(DiscoveryError::PointerUnresolved) ==> failed_via(
                read,
                module_base,
                module@,
            ),
    {
        let slot_sig = slot_table_signature();
        let zone_sig = zone_tag_signature();
        let slot_match = match scan(slot_sig.as_slice(), module) {
            None => return Err(DiscoveryError::ScanFailed),
            Some(i) => i,
        };
        let zone_match = match scan(zone_sig.as_slice(), module) {
            None => return Err(DiscoveryError::ScanFailed),
            Some(i) => i,
        };
        proof {
            lemma_first_match_unique(slot_table_pattern(), module@, slot_match as int);
            lemma_first_match_unique(zone_tag_pattern(), module@, zone_match as int);
        }
        // Both windows lie inside the module, so the operand addresses stay in range.
        let slot_at = module_base + slot_match as u64 + SLOT_TABLE_OPERAND;
        let zone_at = module_base + zone_match as u64 + ZONE_TAG_OPERAND;
        proof {
            assert(slot_at == (module_base + first_match(slot_table_pattern(), module@)
                + SLOT_TABLE_OPERAND) as u64);
            assert(zone_at == (module_base + first_match(zone_tag_pattern(), module@)
                + ZONE_TAG_OPERAND) as u64);
        }
        let root = match read(slot_at) {
            None => return Err(DiscoveryError::PointerUnresolved),
            Some(v) => v,
        };
        let state = match resolve(read, root, PointerPath { offset1: 4 * 89, offset2: 8, offset3: 0x9D8 }) {
            Err(e) => {
                proof {
                    assert(read.ensures((slot_at,), Some(root)));
                    assert(unresolved_via(read, root, state_path()));
                }
                return Err(e);
            },
            Ok(a) => a,
        };
        let levelid = match resolve(read, root, PointerPath { offset1: 4 * 123, offset2: 1, offset3: 0 }) {
            Err(e) => {
                proof {
                    assert(read.ensures((slot_at,), Some(root)));
                    assert(unresolved_via(read, root, levelid_path()));
                }
                return Err(e);
            },
            Ok(a) => a,
        };
        let startindicator = match resolve(read, root, PointerPath { offset1: 4 * 30, offset2: 8, offset3: 0x9D8 }) {
            Err(e) => {
                proof {
                    assert(read.ensures((slot_at,), Some(root)));
                    assert(unresolved_via(read, root, startindicator_path()));
                }
                return Err(e);
            },
            Ok(a) => a,
        };
        let zoneselectongamecomplete = match resolve(read, root, PointerPath { offset1: 4 * 91, offset2: 8, offset3: 0x9D8 }) {
            Err(e) => {
                proof {
                    assert(read.ensures((slot_at,), Some(root)));
                    assert(unresolved_via(read, root, zoneselect_path()));
                }
                return Err(e);
            },
            Ok(a) => a,
        };
        let zone_ptr = match read(zone_at) {
            None => return Err(DiscoveryError::PointerUnresolved),
            Some(v) => v,
        };
        let zoneindicator = zone_ptr as u64;
        let t = Addresses { state, levelid, startindicator, zoneselectongamecomplete, zoneindicator };
        proof {
            assert(read.ensures((zone_at,), Some(zone_ptr)));
            assert(read.ensures((slot_at,), Some(root)));
            assert(resolved_via(read, root, state_path(), t.state));
            assert(resolved_via(read, root, levelid_path(), t.levelid));
            assert(resolved_via(read, root, startindicator_path(), t.startindicator));
            assert(resolved_via(read, root, zoneselect_path(), t.zoneselectongamecomplete));
        }
        Ok(t)
    }
}

} // verus!
