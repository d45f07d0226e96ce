use vstd::prelude::*;

use crate::config::{Settings, SettingsCell};

verus! {

/// Stores loaded settings the first time; once settings are stored, later
/// calls succeed and change nothing, whatever was loaded.
pub fn init_settings(cell: &mut SettingsCell, loaded: Result<Settings, String>) -> (r: Result<
    (),
    String,
>)
    ensures
        match old(cell)@ {
            Some(_) => r is Ok && final(cell)@ == old(cell)@,
            None => match loaded {
                Err(e) => r == Err::<(), String>(e) && final(cell)@ is None,
                Ok(s) => r is Ok && final(cell)@ == Some(s),
            },
        },
{
    if cell.is_initialized() {
        return Ok(());
    }
    match loaded {
        Err(e) => Err(e),
        Ok(s) => {
            cell.set(s);
            Ok(())
        },
    }
}

/// The stored settings; they must have been initialized.
pub fn get_settings(cell: &SettingsCell) -> (r: &Settings)
    requires
        cell@ is Some,
    ensures
        cell@ == Some(*r),
{
    cell.get().unwrap()
}

} // verus!
