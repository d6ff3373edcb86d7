use vstd::prelude::*;

verus! {

/// Static descriptor of the application: its name and version.
/// Configuration, not domain data; it has no lifecycle.
#[derive(Debug, Clone)]
pub struct AppInfo {
    pub name: String,
    pub version: String,
}

/// Returns the fixed application descriptor: the name "Synapse" and the
/// version "0.1.0", on every call.
pub fn get_app_info() -> (info: AppInfo)
    ensures
        info.name@ == "Synapse"@,
        info.version@ == "0.1.0"@,
{
    AppInfo { name: "Synapse".to_owned(), version: "0.1.0".to_owned() }
}

} // verus!
