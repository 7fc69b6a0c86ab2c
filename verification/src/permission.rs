//! Towny permission data: a compact four-boolean array per player class, and
//! the camelCase object that groups the four classes with the action flags.
//!
//! The four-element array shape is a wire-compatibility contract with the
//! API: decoding rejects arrays with fewer or more than four booleans.

use vstd::prelude::*;

use crate::json::{
    bool_field, decode_bool_array, is_bool, lemma_first_bad_bool_at_least, spec_bool_field,
    spec_decode_bool_array, spec_get, DecodeError, JsonValue,
};
use vstd::string::StringExecFns;

verus! {

/// Permission flags for each class of player in a town.
#[derive(Debug, Clone, Copy, PartialEq, Eq, Structural)]
pub struct TownyPermissionSet {
    pub resident: bool,
    pub nation: bool,
    pub ally: bool,
    pub outsider: bool,
}

/// Action flags of a town or quarter.
#[derive(Debug, Clone, Copy, PartialEq, Eq, Structural)]
pub struct TownyPermissionFlags {
    pub pvp: bool,
    pub explosion: bool,
    pub fire: bool,
    pub mobs: bool,
}

/// The permission block reported for a town or player.
#[derive(Debug, Clone, Copy, PartialEq, Eq, Structural)]
pub struct TownyPermissions {
    pub build: TownyPermissionSet,
    pub destroy: TownyPermissionSet,
    pub switch: TownyPermissionSet,
    pub item_use: TownyPermissionSet,
    pub flags: TownyPermissionFlags,
}

/// Whether `v` is the wire encoding of `p`: the array
/// `[resident, nation, ally, outsider]`.
pub open spec fn is_permission_set_encoding(v: JsonValue, p: TownyPermissionSet) -> bool {
    v matches JsonValue::Array(items) && items@ == seq![
        JsonValue::Bool(p.resident),
        JsonValue::Bool(p.nation),
        JsonValue::Bool(p.ally),
        JsonValue::Bool(p.outsider),
    ]
}

/// What decoding a wire value as a permission set yields.
pub open spec fn spec_decode_permission_set(v: JsonValue) -> Result<
    TownyPermissionSet,
    DecodeError,
> {
    match spec_decode_bool_array(v, 4) {
        Ok(s) => Ok(
            (TownyPermissionSet { resident: s[0], nation: s[1], ally: s[2], outsider: s[3] }),
        ),
        Err(e) => Err(e),
    }
}

impl TownyPermissionSet {
    /// Encodes this set as the four-element wire array.
    pub fn encode(&self) -> (r: JsonValue)
        ensures
            is_permission_set_encoding(r, *self),
    {
        let mut items: Vec<JsonValue> = Vec::new();
        items.push(JsonValue::Bool(self.resident));
        items.push(JsonValue::Bool(self.nation));
        items.push(JsonValue::Bool(self.ally));
        items.push(JsonValue::Bool(self.outsider));
        proof {
            assert(items@ =~= seq![
                JsonValue::Bool(self.resident),
                JsonValue::Bool(self.nation),
                JsonValue::Bool(self.ally),
                JsonValue::Bool(self.outsider),
            ]);
        }
        JsonValue::Array(items)
    }

    /// Decodes a wire value that must be an array of exactly four booleans.
    pub fn decode(v: &JsonValue) -> (r: Result<TownyPermissionSet, DecodeError>)
        ensures
            (match spec_decode_permission_set(*v) {
                Ok(p) => r matches Ok(q) && q == p,
                Err(e) => r matches Err(a) && a == e,
            }),
    {
        match decode_bool_array(v, 4) {
            Ok(vals) => Ok(
                TownyPermissionSet {
                    resident: vals[0],
                    nation: vals[1],
                    ally: vals[2],
                    outsider: vals[3],
                },
            ),
            Err(e) => Err(e),
        }
    }
}

/// Law: decoding any encoding of a permission set yields that set back.
pub proof fn lemma_permission_set_round_trip(v: JsonValue, p: TownyPermissionSet)
    requires
        is_permission_set_encoding(v, p),
    ensures
        spec_decode_permission_set(v) == Ok::<TownyPermissionSet, DecodeError>(p),
{
    let items = v->Array_0;
    assert(is_bool(items@[0]));
    assert(is_bool(items@[1]));
    assert(is_bool(items@[2]));
    assert(is_bool(items@[3]));
    lemma_first_bad_bool_at_least(items@, 4);
    let s = Seq::new(4, |i: int| crate::json::bool_of(items@[i]));
    assert(s[0] == p.resident);
    assert(s[1] == p.nation);
    assert(s[2] == p.ally);
    assert(s[3] == p.outsider);
}

/// What decoding a wire value as the flag object yields; the fields are
/// examined in the order `pvp`, `explosion`, `fire`, `mobs`.
pub open spec fn spec_decode_permission_flags(v: JsonValue) -> Result<
    TownyPermissionFlags,
    DecodeError,
> {
    match v {
        JsonValue::Object(fields) => match spec_bool_field(fields@, "pvp"@) {
            Err(e) => Err(e),
            Ok(pvp) => match spec_bool_field(fields@, "explosion"@) {
                Err(e) => Err(e),
                Ok(explosion) => match spec_bool_field(fields@, "fire"@) {
                    Err(e) => Err(e),
                    Ok(fire) => match spec_bool_field(fields@, "mobs"@) {
                        Err(e) => Err(e),
                        Ok(mobs) => Ok((TownyPermissionFlags { pvp, explosion, fire, mobs })),
                    },
                },
            },
        },
        _ => Err(DecodeError::NotAnObject),
    }
}

impl TownyPermissionFlags {
    /// Encodes these flags as the camelCase wire object.
    pub fn encode(&self) -> (r: JsonValue)
        ensures
            is_permission_flags_encoding(r, *self),
    {
        let mut fields: Vec<(String, JsonValue)> = Vec::new();
        fields.push((String::from_str("pvp"), JsonValue::Bool(self.pvp)));
        fields.push((String::from_str("explosion"), JsonValue::Bool(self.explosion)));
        fields.push((String::from_str("fire"), JsonValue::Bool(self.fire)));
        fields.push((String::from_str("mobs"), JsonValue::Bool(self.mobs)));
        proof {
            assert(fields@.len() == 4);
        }
        JsonValue::Object(fields)
    }

    /// Decodes a wire value that must be an object with the four flag fields.
    pub fn decode(v: &JsonValue) -> (r: Result<TownyPermissionFlags, DecodeError>)
        ensures
            (match spec_decode_permission_flags(*v) {
                Ok(p) => r matches Ok(q) && q == p,
                Err(e) => r matches Err(a) && a == e,
            }),
    {
        match v {
            JsonValue::Object(fields) => {
                let pvp = match bool_field(fields, "pvp") {
                    Ok(b) => b,
                    Err(e) => {
                        return Err(e);
                    },
                };
                let explosion = match bool_field(fields, "explosion") {
                    Ok(b) => b,
                    Err(e) => {
                        return Err(e);
                    },
                };
                let fire = match bool_field(fields, "fire") {
                    Ok(b) => b,
                    Err(e) => {
                        return Err(e);
                    },
                };
                let mobs = match bool_field(fields, "mobs") {
                    Ok(b) => b,
                    Err(e) => {
                        return Err(e);
                    },
                };
                Ok(TownyPermissionFlags { pvp, explosion, fire, mobs })
            },
            _ => Err(DecodeError::NotAnObject),
        }
    }
}

/// Whether `v` is the wire encoding of the flag object, with the fields in
/// canonical order.
pub open spec fn is_permission_flags_encoding(v: JsonValue, p: TownyPermissionFlags) -> bool {
    &&& v matches JsonValue::Object(fields)
    &&& fields@.len() == 4
    &&& fields@[0].0@ == "pvp"@ && fields@[0].1 == JsonValue::Bool(p.pvp)
    &&& fields@[1].0@ == "explosion"@ && fields@[1].1 == JsonValue::Bool(p.explosion)
    &&& fields@[2].0@ == "fire"@ && fields@[2].1 == JsonValue::Bool(p.fire)
    &&& fields@[3].0@ == "mobs"@ && fields@[3].1 == JsonValue::Bool(p.mobs)
}

/// Law: decoding any encoding of the flag object yields the flags back.
pub proof fn lemma_permission_flags_round_trip(v: JsonValue, p: TownyPermissionFlags)
    requires
        is_permission_flags_encoding(v, p),
    ensures
        spec_decode_permission_flags(v) == Ok::<TownyPermissionFlags, DecodeError>(p),
{
    reveal_strlit("pvp");
    reveal_strlit("explosion");
    reveal_strlit("fire");
    reveal_strlit("mobs");
    assert("pvp"@.len() == 3);
    assert("explosion"@.len() == 9);
    assert("fire"@.len() == 4);
    assert("mobs"@.len() == 4);
    assert("fire"@[0] == 'f');
    assert("mobs"@[0] == 'm');
    let f = v->Object_0@;
    let f1 = f.drop_first();
    let f2 = f1.drop_first();
    let f3 = f2.drop_first();
    assert(f1[0] == f[1]);
    assert(f2[0] == f[2]);
    assert(f3[0] == f[3]);
    assert(spec_get(f, "pvp"@) == Some(f[0].1));
    assert(spec_get(f1, "explosion"@) == Some(f[1].1));
    assert(spec_get(f, "explosion"@) == Some(f[1].1));
    assert(spec_get(f2, "fire"@) == Some(f[2].1));
    assert(spec_get(f1, "fire"@) == Some(f[2].1));
    assert(spec_get(f, "fire"@) == Some(f[2].1));
    assert(spec_get(f3, "mobs"@) == Some(f[3].1));
    assert(spec_get(f2, "mobs"@) == Some(f[3].1));
    assert(spec_get(f1, "mobs"@) == Some(f[3].1));
    assert(spec_get(f, "mobs"@) == Some(f[3].1));
}

/// What reading one permission-set field of an object yields.
pub open spec fn spec_perm_set_field(fields: Seq<(String, JsonValue)>, k: Seq<char>) -> Result<
    TownyPermissionSet,
    DecodeError,
> {
    match spec_get(fields, k) {
        Option::None => Err(DecodeError::MissingField),
        Option::Some(v) => spec_decode_permission_set(v),
    }
}

/// Reads one permission-set field of a decoded object.
fn perm_set_field(fields: &Vec<(String, JsonValue)>, k: &str) -> (r: Result<
    TownyPermissionSet,
    DecodeError,
>)
    ensures
        (match spec_perm_set_field(fields@, k@) {
            Ok(p) => r matches Ok(a) && a == p,
            Err(e) => r matches Err(a) && a == e,
        }),
{
    match crate::json::get_field(fields, k) {
        Option::None => Err(DecodeError::MissingField),
        Option::Some(v) => TownyPermissionSet::decode(v),
    }
}

/// What decoding a wire value as the full permission block yields; the
/// fields are examined in the order `build`, `destroy`, `switch`, `itemUse`,
/// `flags`.
pub open spec fn spec_decode_towny_permissions(v: JsonValue) -> Result<
    TownyPermissions,
    DecodeError,
> {
    match v {
        JsonValue::Object(fields) => match spec_perm_set_field(fields@, "build"@) {
            Err(e) => Err(e),
            Ok(build) => match spec_perm_set_field(fields@, "destroy"@) {
                Err(e) => Err(e),
                Ok(destroy) => match spec_perm_set_field(fields@, "switch"@) {
                    Err(e) => Err(e),
                    Ok(switch) => match spec_perm_set_field(fields@, "itemUse"@) {
                        Err(e) => Err(e),
                        Ok(item_use) => match spec_get(fields@, "flags"@) {
                            Option::None => Err(DecodeError::MissingField),
                            Option::Some(fv) => match spec_decode_permission_flags(fv) {
                                Err(e) => Err(e),
                                Ok(flags) => Ok(
                                    (TownyPermissions { build, destroy, switch, item_use, flags }),
                                ),
                            },
                        },
                    },
                },
            },
        },
        _ => Err(DecodeError::NotAnObject),
    }
}

impl TownyPermissions {
    /// Encodes this block as the camelCase wire object, each class as its
    /// compact array.
    pub fn encode(&self) -> (r: JsonValue)
        ensures
            is_towny_permissions_encoding(r, *self),
    {
        let mut fields: Vec<(String, JsonValue)> = Vec::new();
        fields.push((String::from_str("build"), self.build.encode()));
        fields.push((String::from_str("destroy"), self.destroy.encode()));
        fields.push((String::from_str("switch"), self.switch.encode()));
        fields.push((String::from_str("itemUse"), self.item_use.encode()));
        fields.push((String::from_str("flags"), self.flags.encode()));
        proof {
            assert(fields@.len() == 5);
        }
        JsonValue::Object(fields)
    }

    /// Decodes a wire value that must be an object with the four class
    /// arrays and the flag object.
    pub fn decode(v: &JsonValue) -> (r: Result<TownyPermissions, DecodeError>)
        ensures
            (match spec_decode_towny_permissions(*v) {
                Ok(p) => r matches Ok(q) && q == p,
                Err(e) => r matches Err(a) && a == e,
            }),
    {
        match v {
            JsonValue::Object(fields) => {
                let build = match perm_set_field(fields, "build") {
                    Ok(p) => p,
                    Err(e) => {
                        return Err(e);
                    },
                };
                let destroy = match perm_set_field(fields, "destroy") {
                    Ok(p) => p,
                    Err(e) => {
                        return Err(e);
                    },
                };
                let switch = match perm_set_field(fields, "switch") {
                    Ok(p) => p,
                    Err(e) => {
                        return Err(e);
                    },
                };
                let item_use = match perm_set_field(fields, "itemUse") {
                    Ok(p) => p,
                    Err(e) => {
                        return Err(e);
                    },
                };
                let flags = match crate::json::get_field(fields, "flags") {
                    Option::None => {
                        return Err(DecodeError::MissingField);
                    },
                    Option::Some(fv) => match TownyPermissionFlags::decode(fv) {
                        Ok(f) => f,
                        Err(e) => {
                            return Err(e);
                        },
                    },
                };
                Ok(TownyPermissions { build, destroy, switch, item_use, flags })
            },
            _ => Err(DecodeError::NotAnObject),
        }
    }
}

/// Whether `v` is the wire encoding of the full permission block, with the
/// fields in canonical order.
pub open spec fn is_towny_permissions_encoding(v: JsonValue, p: TownyPermissions) -> bool {
    &&& v matches JsonValue::Object(fields)
    &&& fields@.len() == 5
    &&& fields@[0].0@ == "build"@
    &&& is_permission_set_encoding(fields@[0].1, p.build)
    &&& fields@[1].0@ == "destroy"@
    &&& is_permission_set_encoding(fields@[1].1, p.destroy)
    &&& fields@[2].0@ == "switch"@
    &&& is_permission_set_encoding(fields@[2].1, p.switch)
    &&& fields@[3].0@ == "itemUse"@
    &&& is_permission_set_encoding(fields@[3].1, p.item_use)
    &&& fields@[4].0@ == "flags"@
    &&& is_permission_flags_encoding(fields@[4].1, p.flags)
}

/// Law: decoding any encoding of the full permission block yields the block
/// back.
pub proof fn lemma_towny_permissions_round_trip(v: JsonValue, p: TownyPermissions)
    requires
        is_towny_permissions_encoding(v, p),
    ensures
        spec_decode_towny_permissions(v) == Ok::<TownyPermissions, DecodeError>(p),
{
    reveal_strlit("build");
    reveal_strlit("destroy");
    reveal_strlit("switch");
    reveal_strlit("itemUse");
    reveal_strlit("flags");
    assert("build"@.len() == 5);
    assert("destroy"@.len() == 7);
    assert("switch"@.len() == 6);
    assert("itemUse"@.len() == 7);
    assert("flags"@.len() == 5);
    assert("build"@[0] == 'b');
    assert("flags"@[0] == 'f');
    assert("destroy"@[0] == 'd');
    assert("itemUse"@[0] == 'i');
    let f = v->Object_0@;
    let f1 = f.drop_first();
    let f2 = f1.drop_first();
    let f3 = f2.drop_first();
    let f4 = f3.drop_first();
    assert(f1[0] == f[1]);
    assert(f2[0] == f[2]);
    assert(f3[0] == f[3]);
    assert(f4[0] == f[4]);
    assert(spec_get(f, "build"@) == Some(f[0].1));
    assert(spec_get(f1, "destroy"@) == Some(f[1].1));
    assert(spec_get(f, "destroy"@) == Some(f[1].1));
    assert(spec_get(f2, "switch"@) == Some(f[2].1));
    assert(spec_get(f1, "switch"@) == Some(f[2].1));
    assert(spec_get(f, "switch"@) == Some(f[2].1));
    assert(spec_get(f3, "itemUse"@) == Some(f[3].1));
    assert(spec_get(f2, "itemUse"@) == Some(f[3].1));
    assert(spec_get(f1, "itemUse"@) == Some(f[3].1));
    assert(spec_get(f, "itemUse"@) == Some(f[3].1));
    assert(spec_get(f4, "flags"@) == Some(f[4].1));
    assert(spec_get(f3, "flags"@) == Some(f[4].1));
    assert(spec_get(f2, "flags"@) == Some(f[4].1));
    assert(spec_get(f1, "flags"@) == Some(f[4].1));
    assert(spec_get(f, "flags"@) == Some(f[4].1));
    lemma_permission_set_round_trip(f[0].1, p.build);
    lemma_permission_set_round_trip(f[1].1, p.destroy);
    lemma_permission_set_round_trip(f[2].1, p.switch);
    lemma_permission_set_round_trip(f[3].1, p.item_use);
    lemma_permission_flags_round_trip(f[4].1, p.flags);
}

} // verus!
