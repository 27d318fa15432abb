use vstd::prelude::*;

verus! {

/// The names of the settings the editor keeps between sessions.
#[derive(Debug, Clone, Copy, PartialEq, Eq, Structural)]
pub enum ParameterName {
    LatestExportDir,
}

impl ParameterName {
    /// The name the setting is stored under.
    pub fn name(&self) -> (result: String)
        ensures
            result@ == match self {
                ParameterName::LatestExportDir => "LatestExportDir"@,
            },
    {
        match self {
            ParameterName::LatestExportDir => "LatestExportDir".to_owned(),
        }
    }
}

} // verus!
