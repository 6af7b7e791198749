//! The schema check made before serving: every migration the backend knows
//! must have been applied to the database.

use vstd::prelude::*;
use vstd::string::*;
use crate::text::{decimal, u64_to_string};

verus! {

/// Accept the database when it has applied every known migration; otherwise
/// explain how far behind it is.
pub fn check_migration_counts(applied: u64, known: u64) -> (r: Result<(), String>)
    ensures
        r is Ok <==> applied >= known,
        r matches Err(m) ==> m@ == decimal(known as nat) + " migrations known but only "@
            + decimal(applied as nat) + " applied"@,
{
    if applied < known {
        let mut m = u64_to_string(known);
        m.append(" migrations known but only ");
        m.append(u64_to_string(applied).as_str());
        m.append(" applied");
        return Err(m);
    }
    Ok(())
}

} // verus!
