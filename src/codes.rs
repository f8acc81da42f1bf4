use vstd::prelude::*;

verus! {

/// The host's error code for a call that succeeded.
pub const SUCCESS: i32 = 0;

/// The host's error code for any failure inside a storage-area plugin.
pub const STORAGE_AREA_PLUGIN: i32 = 32;

/// Host code of a deleted resource.
pub const CHANGE_DELETED: u32 = 1;

/// Host code of an instance added below a resource.
pub const CHANGE_NEW_CHILD_INSTANCE: u32 = 2;

/// Host code of a new instance.
pub const CHANGE_NEW_INSTANCE: u32 = 3;

/// Host code of a new patient.
pub const CHANGE_NEW_PATIENT: u32 = 4;

/// Host code of a new series.
pub const CHANGE_NEW_SERIES: u32 = 5;

/// Host code of a new study.
pub const CHANGE_NEW_STUDY: u32 = 6;

/// Host code of a patient that has become stable.
pub const CHANGE_STABLE_PATIENT: u32 = 7;

/// Host code of a series that has become stable.
pub const CHANGE_STABLE_SERIES: u32 = 8;

/// Host code of a study that has become stable.
pub const CHANGE_STABLE_STUDY: u32 = 9;

/// Host code of a patient resource.
pub const RESOURCE_PATIENT: u32 = 0;

/// Host code of a study resource.
pub const RESOURCE_STUDY: u32 = 1;

/// Host code of a series resource.
pub const RESOURCE_SERIES: u32 = 2;

/// Host code of an instance resource.
pub const RESOURCE_INSTANCE: u32 = 3;

/// Host code for "no resource".
pub const RESOURCE_NONE: u32 = 4;

} // verus!
