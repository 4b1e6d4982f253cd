//! The layout of the stored journal and the identity of its database.
use crate::digest::{is_lower_hex, lower_hex};
use crate::value::Value;
use vstd::prelude::*;

verus! {

/// The current version of the layout.
pub const CURRENT_SCHEMA_VERSION: i64 = 13;

/// Why a database is refused.
#[derive(Clone, Copy, Debug, PartialEq, Eq, Structural)]
pub enum SchemaError {
    /// The layout is not the current one.
    NotCurrent,
    /// The layout is newer than the current one, or a version of it is missing.
    Unsupported,
    /// The database has no identity, or more than one.
    Identity,
    /// The identity is not made of 32 lower-case hexadecimal digits.
    IdentityForm,
    /// The database is damaged.
    Damaged,
}

/// Accepts a database whose layout is the current one: it holds every version
/// from the first to the current one.
pub fn verify_current_schema(minimum: i64, maximum: i64, count: i64) -> (r: Result<(), SchemaError>)
    ensures
        r == (if minimum == 1 && maximum == CURRENT_SCHEMA_VERSION && count
            == CURRENT_SCHEMA_VERSION {
            Ok::<(), SchemaError>(())
        } else {
            Err::<(), SchemaError>(SchemaError::NotCurrent)
        }),
{
    if minimum != 1 || maximum != CURRENT_SCHEMA_VERSION || count != CURRENT_SCHEMA_VERSION {
        return Err(SchemaError::NotCurrent);
    }
    Ok(())
}

/// The versions that a layout lacks.
pub open spec fn versions_after(current: int) -> Seq<i64> {
    Seq::new(
        (CURRENT_SCHEMA_VERSION - current) as nat,
        |i: int| (current + 1 + i) as i64,
    )
}

/// The versions that have to be applied to a layout, in their order.
pub fn migrate(current: i64, count: u64) -> (r: Result<Vec<i64>, SchemaError>)
    ensures
        if current != count || current > CURRENT_SCHEMA_VERSION {
            r matches Err(e) && e == SchemaError::Unsupported
        } else {
            r matches Ok(x) && x@ == versions_after(current as int)
        },
{
    if current as i128 != count as i128 || current > CURRENT_SCHEMA_VERSION {
        return Err(SchemaError::Unsupported);
    }
    let mut out: Vec<i64> = Vec::new();
    let mut version: i64 = current;
    while version < CURRENT_SCHEMA_VERSION
        invariant
            0 <= current <= version <= CURRENT_SCHEMA_VERSION,
            out@ == versions_after(current as int).subrange(0, version - current),
        decreases CURRENT_SCHEMA_VERSION - version,
    {
        version = version + 1;
        out.push(version);
        assert(out@ =~= versions_after(current as int).subrange(0, version - current));
    }
    assert(out@ =~= versions_after(current as int));
    Ok(out)
}

/// The identity of a database: the only one, of 32 lower-case hexadecimal digits.
pub open spec fn identity_of(ids: Seq<Seq<char>>) -> Result<Seq<char>, SchemaError> {
    if ids.len() != 1 {
        Err(SchemaError::Identity)
    } else if !lower_hex(ids[0], 32) {
        Err(SchemaError::IdentityForm)
    } else {
        Ok(ids[0])
    }
}

/// The identity of a database.
pub fn database_instance_id(ids: &Vec<String>) -> (r: Result<String, SchemaError>)
    ensures
        match identity_of(ids.deep_view()) {
            Ok(id) => r matches Ok(x) && x@ == id,
            Err(e) => r matches Err(x) && x == e,
        },
{
    let ghost all = ids.deep_view();
    if ids.len() != 1 {
        return Err(SchemaError::Identity);
    }
    assert(all[0] == ids[0]@);
    if !is_lower_hex(ids[0].as_str(), 32) {
        return Err(SchemaError::IdentityForm);
    }
    Ok(ids[0].dup())
}

/// Accepts a database that is not damaged.
pub fn integrity_check(result: &str) -> (r: Result<(), SchemaError>)
    ensures
        r == (if result@ == "ok"@ {
            Ok::<(), SchemaError>(())
        } else {
            Err::<(), SchemaError>(SchemaError::Damaged)
        }),
{
    if crate::text::text_eq(result, "ok") {
        Ok(())
    } else {
        Err(SchemaError::Damaged)
    }
}

/// A layout that can be migrated is the current one afterwards: what is applied
/// to it are the versions that it lacks, each once and in their order.
pub proof fn law_migrations_complete_the_layout(current: i64, i: int)
    requires
        0 <= current <= CURRENT_SCHEMA_VERSION,
        0 <= i < versions_after(current as int).len(),
    ensures
        current + versions_after(current as int).len() == CURRENT_SCHEMA_VERSION,
        versions_after(current as int)[i] == current + 1 + i,
{
}

} // verus!
