use vstd::prelude::*;

use crate::codes::{
    CHANGE_DELETED, CHANGE_NEW_CHILD_INSTANCE, CHANGE_NEW_INSTANCE, CHANGE_NEW_PATIENT,
    CHANGE_NEW_SERIES, CHANGE_NEW_STUDY, CHANGE_STABLE_PATIENT, CHANGE_STABLE_SERIES,
    CHANGE_STABLE_STUDY, RESOURCE_INSTANCE, RESOURCE_NONE, RESOURCE_PATIENT, RESOURCE_SERIES,
    RESOURCE_STUDY, SUCCESS,
};

verus! {

/// Kind of resource that a change notification is about.
#[derive(Debug, Clone, Copy, PartialEq, Eq, Structural, PartialOrd, Ord)]
pub enum ResourceType {
    NoResource,
    Instance,
    Series,
    Study,
    Patient,
    Other,
}

/// Resource kind named by a host resource code; unknown codes give `Other`.
pub open spec fn resource_type_of(code: u32) -> ResourceType {
    if code == RESOURCE_INSTANCE {
        ResourceType::Instance
    } else if code == RESOURCE_STUDY {
        ResourceType::Study
    } else if code == RESOURCE_SERIES {
        ResourceType::Series
    } else if code == RESOURCE_PATIENT {
        ResourceType::Patient
    } else if code == RESOURCE_NONE {
        ResourceType::NoResource
    } else {
        ResourceType::Other
    }
}

impl From<u32> for ResourceType {
    fn from(code: u32) -> (r: ResourceType)
        ensures
            r == resource_type_of(code),
    {
        match code {
            RESOURCE_INSTANCE => ResourceType::Instance,
            RESOURCE_STUDY => ResourceType::Study,
            RESOURCE_SERIES => ResourceType::Series,
            RESOURCE_PATIENT => ResourceType::Patient,
            RESOURCE_NONE => ResourceType::NoResource,
            _ => ResourceType::Other,
        }
    }
}

impl vstd::std_specs::convert::FromSpecImpl<u32> for ResourceType {
    open spec fn obeys_from_spec() -> bool {
        true
    }

    open spec fn from_spec(code: u32) -> ResourceType {
        resource_type_of(code)
    }
}

/// Kind of change that the host reports.
#[derive(Debug, PartialEq, Eq, Structural, PartialOrd, Ord)]
pub enum ChangeType {
    Deleted,
    NewChildInstance,
    NewInstance,
    NewSeries,
    NewStudy,
    NewPatient,
    StableSeries,
    StableStudy,
    StablePatient,
    Other,
}

/// Change kind named by a host change code; unknown codes give `Other`.
pub open spec fn change_type_of(code: u32) -> ChangeType {
    if code == CHANGE_DELETED {
        ChangeType::Deleted
    } else if code == CHANGE_NEW_CHILD_INSTANCE {
        ChangeType::NewChildInstance
    } else if code == CHANGE_NEW_INSTANCE {
        ChangeType::NewInstance
    } else if code == CHANGE_NEW_SERIES {
        ChangeType::NewSeries
    } else if code == CHANGE_NEW_STUDY {
        ChangeType::NewStudy
    } else if code == CHANGE_NEW_PATIENT {
        ChangeType::NewPatient
    } else if code == CHANGE_STABLE_STUDY {
        ChangeType::StableStudy
    } else if code == CHANGE_STABLE_SERIES {
        ChangeType::StableSeries
    } else if code == CHANGE_STABLE_PATIENT {
        ChangeType::StablePatient
    } else {
        ChangeType::Other
    }
}

impl From<u32> for ChangeType {
    fn from(code: u32) -> (r: ChangeType)
        ensures
            r == change_type_of(code),
    {
        match code {
            CHANGE_DELETED => ChangeType::Deleted,
            CHANGE_NEW_CHILD_INSTANCE => ChangeType::NewChildInstance,
            CHANGE_NEW_INSTANCE => ChangeType::NewInstance,
            CHANGE_NEW_SERIES => ChangeType::NewSeries,
            CHANGE_NEW_STUDY => ChangeType::NewStudy,
            CHANGE_NEW_PATIENT => ChangeType::NewPatient,
            CHANGE_STABLE_STUDY => ChangeType::StableStudy,
            CHANGE_STABLE_SERIES => ChangeType::StableSeries,
            CHANGE_STABLE_PATIENT => ChangeType::StablePatient,
            _ => ChangeType::Other,
        }
    }
}

impl vstd::std_specs::convert::FromSpecImpl<u32> for ChangeType {
    open spec fn obeys_from_spec() -> bool {
        true
    }

    open spec fn from_spec(code: u32) -> ChangeType {
        change_type_of(code)
    }
}

/// A decoded change notification: what changed, on which kind of resource,
/// and the resource's identifier when the host gave a readable one.
pub struct ChangeEvent {
    pub change: ChangeType,
    pub resource: ResourceType,
    pub resource_id: Option<String>,
}

/// Decodes a change notification. The host codes map totally (unknown codes
/// give `Other`); an identifier that could not be read arrives as `None` and
/// stays absent. The host is always answered with success.
pub fn on_change(change_code: u32, resource_code: u32, resource_id: Option<String>) -> (r: (
    ChangeEvent,
    i32,
))
    ensures
        r.0.change == change_type_of(change_code),
        r.0.resource == resource_type_of(resource_code),
        r.0.resource_id == resource_id,
        r.1 == SUCCESS,
{
    let event = ChangeEvent {
        change: ChangeType::from(change_code),
        resource: ResourceType::from(resource_code),
        resource_id,
    };
    (event, SUCCESS)
}

} // verus!
