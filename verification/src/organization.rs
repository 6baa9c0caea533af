//! The organization entity: a thin typed wrapper over a resource.

use vstd::prelude::*;

use crate::client::FleetbaseClient;
use crate::json::JsonValue;
use crate::resource::Resource;
use crate::FleetbaseError;

verus! {

/// True when a decoded payload can be wrapped into a resource: it carries a
/// string `"id"` member.
pub open spec fn has_string_id(v: JsonValue) -> bool {
    v.entry_spec("id"@) matches Some(JsonValue::Str(_))
}

#[derive(Debug)]
pub struct Organization {
    pub resource: Resource,
}

impl Organization {
    pub open spec fn wf(self) -> bool {
        self.resource.wf()
    }

    /// Wraps a decoded payload; fails with `MissingIdentifier` exactly when
    /// the payload carries no string `"id"`.
    pub fn new(attributes: JsonValue, adapter: FleetbaseClient) -> (r: Result<
        Organization,
        FleetbaseError,
    >)
        ensures
            r is Ok <==> has_string_id(attributes),
            r matches Ok(o) ==> {
                &&& o.wf()
                &&& o.resource.attributes == attributes
                &&& attributes.entry_spec("id"@) matches Some(JsonValue::Str(s)) && s@
                    == o.resource.id@
            },
            r is Err ==> r == Err::<Organization, FleetbaseError>(
                FleetbaseError::MissingIdentifier,
            ),
    {
        match Resource::new(attributes, adapter, "organization") {
            Ok(resource) => Ok(Organization { resource }),
            Err(e) => Err(e),
        }
    }
}

} // verus!
