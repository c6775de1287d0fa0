use vstd::prelude::*;

verus! {

/// Whether saving settings has to switch the system's start-at-login entry.
///
/// `previous` is the `auto_start` flag of the settings that were stored so
/// far, or `None` where they could not be read. The entry is switched where
/// the flag changes, and where the old flag is not known.
pub fn auto_start_needs_update(previous: Option<bool>, wanted: bool) -> (update: bool)
    ensures
        update == (previous != Some(wanted)),
{
    match previous {
        Some(old) => old != wanted,
        None => true,
    }
}

} // verus!
