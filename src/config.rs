use once_cell::sync::OnceCell;
use vstd::prelude::*;

verus! {

#[verifier::external_type_specification]
#[verifier::external_body]
#[verifier::reject_recursive_types(T)]
pub struct ExOnceCell<T>(OnceCell<T>);

/// Relies on once_cell's sync::OnceCell::set: on a cell that is already set it
/// hands back the value it was given.
pub assume_specification<T>[ OnceCell::<T>::set ](cell: &OnceCell<T>, value: T) -> (r: Result<(), T>)
    ensures
        r matches Err(v) ==> v == value,
;

/// Relies on once_cell's sync::OnceCell::get, which reads the cell without
/// blocking; what it holds depends on earlier calls, so nothing is stated.
pub assume_specification<T>[ OnceCell::<T>::get ](cell: &OnceCell<T>) -> (r: Option<&T>);

/// Settings read once at startup.
#[derive(Debug)]
pub struct Config {
    /// Where the playlist files are.
    pub playlists_dir: String,
}

impl Config {
    /// The configuration stored in `cell`, once it has been set.
    pub fn global(cell: &OnceCell<Config>) -> (r: Option<&Config>) {
        cell.get()
    }

    /// Stores `instance` in `cell`; when the cell was set already, it stays as
    /// it was and `instance` comes back.
    pub fn set_global(cell: &OnceCell<Config>, instance: Config) -> (r: Result<(), Config>)
        ensures
            r matches Err(v) ==> v == instance,
    {
        cell.set(instance)
    }
}

} // verus!
