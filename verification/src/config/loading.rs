//! The fallback rule shared by every configuration file: a missing file
//! silently gives the built-in default; a file that cannot be read or
//! parsed gives the default too, and its error is handed back to be
//! reported.

use vstd::prelude::*;

verus! {

/// Loads a configuration value, falling back to defaults.
///
/// `exists` says whether the file is there. When it is not, `default`
/// gives the value and nothing is reported. When it is, `try_load` is
/// called once: its value is used if it succeeds; otherwise `default`
/// gives the value and the load error is returned beside it.
pub fn load_or_default<T, L: FnOnce() -> Result<T, String>, D: FnOnce() -> T>(
    exists: bool,
    try_load: L,
    default: D,
) -> (r: (T, Option<String>))
    requires
        call_requires(try_load, ()),
        call_requires(default, ()),
    ensures
        !exists ==> call_ensures(default, (), r.0) && r.1 is None,
        exists ==> exists|loaded: Result<T, String>|
            #[trigger] call_ensures(try_load, (), loaded) && match loaded {
                Ok(v) => r.0 == v && r.1 is None,
                Err(e) => call_ensures(default, (), r.0) && r.1 == Some(e),
            },
{
    if !exists {
        return (default(), None);
    }
    let loaded = try_load();
    match loaded {
        Ok(v) => (v, None),
        Err(e) => (default(), Some(e)),
    }
}

} // verus!
