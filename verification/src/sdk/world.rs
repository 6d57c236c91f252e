use vstd::prelude::*;
use vstd::string::StringSliceAdditionalSpecFns;

verus! {

/// The class-name prefix of dropped weapons: the bytes of `weapon_`.
pub open spec fn weapon_prefix() -> Seq<u8> {
    seq![0x77u8, 0x65u8, 0x61u8, 0x70u8, 0x6fu8, 0x6eu8, 0x5fu8]
}

/// The class-name suffix of thrown grenades: the bytes of `_projectile`.
pub open spec fn projectile_suffix() -> Seq<u8> {
    seq![0x5fu8, 0x70u8, 0x72u8, 0x6fu8, 0x6au8, 0x65u8, 0x63u8, 0x74u8, 0x69u8, 0x6cu8, 0x65u8]
}

/// Whether a world entity of this class name (its bytes) is a weapon and whether it is a
/// projectile. Names shorter than 9 bytes are neither; a weapon's name starts with
/// `weapon_`; a projectile's name has at least 11 bytes and ends with `_projectile`.
pub open spec fn spec_world_item(name: Seq<u8>) -> (bool, bool) {
    if name.len() < 9 {
        (false, false)
    } else {
        (
            name.take(7) == weapon_prefix(),
            name.len() >= 11 && name.skip(name.len() - 11) == projectile_suffix(),
        )
    }
}

/// The weapon flag of a name of at least 9 bytes is set exactly when its first 7 bytes
/// spell `weapon_`; the projectile flag exactly when it has at least 11 bytes and its last
/// 11 bytes spell `_projectile`; names under 9 bytes have neither. No other length limit.
pub proof fn lemma_world_item(name: Seq<u8>)
    ensures
        name.len() < 9 ==> !spec_world_item(name).0 && !spec_world_item(name).1,
        name.len() >= 9 ==> (spec_world_item(name).0 <==> forall|i: int|
            0 <= i < 7 ==> name[i] == seq![0x77u8, 0x65u8, 0x61u8, 0x70u8, 0x6fu8, 0x6eu8, 0x5fu8][i]),
        name.len() < 11 ==> !spec_world_item(name).1,
        name.len() >= 11 ==> (spec_world_item(name).1 <==> forall|i: int|
            0 <= i < 11 ==> name[name.len() - 11 + i]
                == seq![0x5fu8, 0x70u8, 0x72u8, 0x6fu8, 0x6au8, 0x65u8, 0x63u8, 0x74u8, 0x69u8, 0x6cu8, 0x65u8][i]),
{
    let w = seq![0x77u8, 0x65u8, 0x61u8, 0x70u8, 0x6fu8, 0x6eu8, 0x5fu8];
    let p = seq![0x5fu8, 0x70u8, 0x72u8, 0x6fu8, 0x6au8, 0x65u8, 0x63u8, 0x74u8, 0x69u8, 0x6cu8, 0x65u8];
    assert(weapon_prefix() =~= w);
    assert(projectile_suffix() =~= p);
    if name.len() >= 9 {
        if forall|i: int| 0 <= i < 7 ==> name[i] == w[i] {
            assert(name.take(7) =~= w);
        }
    }
    if name.len() >= 11 {
        if forall|i: int| 0 <= i < 11 ==> name[name.len() - 11 + i] == p[i] {
            assert(name.skip(name.len() - 11) =~= p);
        }
        if name.skip(name.len() - 11) == p {
            assert forall|i: int| 0 <= i < 11 implies name[name.len() - 11 + i] == p[i] by {
                assert(name.skip(name.len() - 11)[i] == name[name.len() - 11 + i]);
            }
        }
    }
}

/// Classifies a world entity by class name (see `spec_world_item`): (weapon, projectile).
pub fn classify_world_item(class_name: &str) -> (r: (bool, bool))
    ensures
        r == spec_world_item(class_name.spec_bytes()),
        class_name.spec_bytes().len() < 9 ==> !r.0 && !r.1,
        class_name.spec_bytes().len() >= 9 ==> (r.0 <==> forall|i: int|
            0 <= i < 7 ==> class_name.spec_bytes()[i] == seq![0x77u8, 0x65u8, 0x61u8, 0x70u8, 0x6fu8, 0x6eu8, 0x5fu8][i]),
        class_name.spec_bytes().len() < 11 ==> !r.1,
        class_name.spec_bytes().len() >= 11 ==> (r.1 <==> forall|i: int|
            0 <= i < 11 ==> class_name.spec_bytes()[class_name.spec_bytes().len() - 11 + i]
                == seq![0x5fu8, 0x70u8, 0x72u8, 0x6fu8, 0x6au8, 0x65u8, 0x63u8, 0x74u8, 0x69u8, 0x6cu8, 0x65u8][i]),
{
    proof {
        lemma_world_item(class_name.spec_bytes());
    }
    let bytes = class_name.as_bytes();
    let len = bytes.len();
    if len < 9 {
        return (false, false);
    }
    // `weapon_` and `_projectile`, byte by byte
    let weapon: [u8; 7] = [0x77u8, 0x65u8, 0x61u8, 0x70u8, 0x6fu8, 0x6eu8, 0x5fu8];
    let projectile: [u8; 11] = [0x5fu8, 0x70u8, 0x72u8, 0x6fu8, 0x6au8, 0x65u8, 0x63u8, 0x74u8, 0x69u8, 0x6cu8, 0x65u8];
    assert(weapon@ =~= weapon_prefix());
    assert(projectile@ =~= projectile_suffix());

    let mut starts = true;
    for i in 0..7
        invariant
            len == bytes@.len(),
            len >= 9,
            weapon@ == weapon_prefix(),
            starts <==> forall|j: int| 0 <= j < i ==> bytes@[j] == weapon@[j],
    {
        if bytes[i] != weapon[i] {
            starts = false;
        }
    }
    assert(starts <==> bytes@.take(7) =~= weapon_prefix());

    let mut ends = len >= 11;
    if ends {
        let base = len - 11;
        for i in 0..11
            invariant
                len == bytes@.len(),
                len >= 11,
                base == len - 11,
                projectile@ == projectile_suffix(),
                ends <==> forall|j: int| 0 <= j < i ==> bytes@[base + j] == projectile@[j],
        {
            if bytes[base + i] != projectile[i] {
                ends = false;
            }
        }
        assert(ends <==> bytes@.skip(base as int) =~= projectile_suffix());
    }
    (starts, ends)
}

} // verus!
