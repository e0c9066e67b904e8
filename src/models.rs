use vstd::prelude::*;

verus! {

/// Number of history entries listed when a query names no limit.
pub const DEFAULT_HISTORY_LIMIT: i64 = 100;

/// Filter of a change-history listing.
pub struct HistoryQuery {
    pub element_id: Option<String>,
    pub limit: Option<i64>,
}

impl HistoryQuery {
    /// The number of entries to list: the query's limit, else the default.
    pub fn effective_limit(&self) -> (r: i64)
        ensures
            r == match self.limit {
                Some(n) => n,
                None => DEFAULT_HISTORY_LIMIT,
            },
    {
        match self.limit {
            Some(n) => n,
            None => DEFAULT_HISTORY_LIMIT,
        }
    }
}

/// Request to create a project.
pub struct CreateProject {
    pub name: String,
    pub description: Option<String>,
}

/// Request to change a project: each field that is present replaces the
/// project's own.
pub struct UpdateProject {
    pub name: Option<String>,
    pub description: Option<String>,
}

impl UpdateProject {
    /// The project's name and description after this update.
    pub fn apply(self, name: String, description: Option<String>) -> (r: (String, Option<String>))
        ensures
            r.0 == match self.name {
                Some(n) => n,
                None => name,
            },
            r.1 == match self.description {
                Some(d) => Some(d),
                None => description,
            },
    {
        let new_name = match self.name {
            Some(n) => n,
            None => name,
        };
        let new_description = match self.description {
            Some(d) => Some(d),
            None => description,
        };
        (new_name, new_description)
    }
}

/// Properties every element has.
pub struct CommonProperties {
    pub name: String,
    pub layer: String,
    pub visible: bool,
    pub locked: bool,
}

/// Properties of an element in the architectural view.
pub struct ArchitecturalProperties {
    pub material: Option<String>,
    pub finish: Option<String>,
}

} // verus!
