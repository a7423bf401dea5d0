use vstd::prelude::*;
use crate::metadata::YKey;
use crate::bigfile::{Bigfile, BigfileIO};
use crate::objects::YetiObjectView;
use crate::objects::archetype::{ArchetypeView, ObjectArchetype};
use crate::objects::texture::TextureMetaType;

verus! {

broadcast use vstd::std_specs::hash::group_hash_axioms;

/// Follows pass-through texture metadata objects from `key` along their first references,
/// taking at most `fuel` steps. `None`: the walk meets a key with no object or a
/// pass-through with no reference, or runs out of steps. `Some(Some(k))`: it stops at the
/// texture metadata object `k`. `Some(None)`: it meets an object that is no texture metadata.
pub open spec fn tga_walk(objs: Map<u32, YetiObjectView>, key: u32, fuel: nat) -> Option<Option<u32>>
    decreases fuel,
{
    if !objs.contains_key(key) {
        None
    } else {
        match objs[key].archetype {
            ArchetypeView::TextureMetadata(TextureMetaType::Passthrough) => {
                if objs[key].references.len() == 0 || fuel == 0 {
                    None
                } else {
                    tga_walk(objs, objs[key].references[0], (fuel - 1) as nat)
                }
            },
            ArchetypeView::TextureMetadata(_) => Some(Some(key)),
            _ => Some(None),
        }
    }
}

/// The walk from `key` ends, in some number of steps.
pub open spec fn tga_walk_ends(objs: Map<u32, YetiObjectView>, key: u32) -> bool {
    exists|fuel: nat| #[trigger] tga_walk(objs, key, fuel) is Some
}

/// Where the walk from `key` ends.
pub open spec fn tga_target(objs: Map<u32, YetiObjectView>, key: u32) -> Option<u32> {
    tga_walk(objs, key, choose|fuel: nat| #[trigger] tga_walk(objs, key, fuel) is Some).unwrap()
}

/// A walk that ends with some fuel ends the same way with more.
pub proof fn lemma_tga_walk_more_fuel(objs: Map<u32, YetiObjectView>, key: u32, f1: nat, f2: nat)
    requires
        tga_walk(objs, key, f1) is Some,
        f1 <= f2,
    ensures
        tga_walk(objs, key, f2) == tga_walk(objs, key, f1),
    decreases f1,
{
    if objs.contains_key(key) {
        if let ArchetypeView::TextureMetadata(TextureMetaType::Passthrough) = objs[key].archetype {
            if objs[key].references.len() > 0 && f1 > 0 {
                lemma_tga_walk_more_fuel(objs, objs[key].references[0], (f1 - 1) as nat, (f2 - 1) as nat);
            }
        }
    }
}

/// The walk ends the same way whatever fuel it is given, once it is enough.
pub proof fn lemma_tga_walk_unique(objs: Map<u32, YetiObjectView>, key: u32, f1: nat, f2: nat)
    requires
        tga_walk(objs, key, f1) is Some,
        tga_walk(objs, key, f2) is Some,
    ensures
        tga_walk(objs, key, f1) == tga_walk(objs, key, f2),
{
    if f1 <= f2 {
        lemma_tga_walk_more_fuel(objs, key, f1, f2);
    } else {
        lemma_tga_walk_more_fuel(objs, key, f2, f1);
    }
}

/// The key of the texture metadata that `key` stands for: pass-through objects are followed
/// along their first reference; `None` where the walk meets an object that is no texture
/// metadata. A missing object or reference aborts the walk, and a cycle of pass-throughs
/// never ends; those inputs are left out.
pub fn unwrap_tga_key<IO: BigfileIO>(key: YKey, bf: &Bigfile<IO>) -> (r: Option<YKey>)
    requires
        tga_walk_ends(bf.objects(), key.0),
    ensures
        r == (match tga_target(bf.objects(), key.0) {
            Some(k) => Some(YKey(k)),
            None => None::<YKey>,
        }),
{
    let ghost objs = bf.objects();
    let ghost fuel0: nat = choose|fuel: nat| #[trigger] tga_walk(objs, key.0, fuel) is Some;
    let ghost mut fuel: nat = fuel0;
    let mut cur: u32 = key.0;
    assert(tga_target(objs, key.0) == tga_walk(objs, key.0, fuel0).unwrap());
    loop
        invariant
            objs == bf.objects(),
            tga_target(objs, key.0) == tga_walk(objs, key.0, fuel0).unwrap(),
            tga_walk(objs, key.0, fuel0) is Some,
            tga_walk(objs, cur, fuel) == tga_walk(objs, key.0, fuel0),
        decreases fuel,
    {
        let obj = match bf.object_table.get(&cur) {
            Some(o) => o,
            None => {
                proof {
                    assert(!objs.contains_key(cur));
                }
                return None;
            },
        };
        proof {
            assert(objs.contains_key(cur));
            assert(objs[cur] == obj@);
        }
        match obj.get_archetype() {
            ObjectArchetype::TextureMetadata(tga) => {
                match tga.meta {
                    TextureMetaType::Passthrough => {
                        let refs = obj.get_references();
                        if refs.len() == 0 {
                            return None;
                        }
                        proof {
                            assert(fuel > 0);
                        }
                        cur = refs[0];
                        proof {
                            fuel = (fuel - 1) as nat;
                        }
                    },
                    _ => {
                        return Some(YKey(cur));
                    },
                }
            },
            _ => {
                return None;
            },
        }
    }
}

} // verus!
