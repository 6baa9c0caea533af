//! The place entity: a resource wrapper whose owner field accepts either a
//! bare id or a serialized resource payload.

use vstd::prelude::*;

use crate::client::FleetbaseClient;
use crate::helpers::{is_resource, is_resource_spec};
use crate::json::JsonValue;
use crate::organization::has_string_id;
use crate::resource::Resource;
use crate::trusted::{json_id_of, json_object_id};
use crate::FleetbaseError;

verus! {

/// What a `set_owner` argument denotes: the nested `"id"` of a
/// resource-shaped string when the parse yields one, the bare string
/// otherwise, and nothing at all for a resource-shaped string that does not
/// parse.
pub open spec fn owner_value_spec(s: Seq<char>) -> Option<Seq<char>> {
    if is_resource_spec(s) {
        json_id_of(s)
    } else {
        Some(s)
    }
}

#[derive(Debug)]
pub struct PlaceResource {
    pub resource: Resource,
}

impl PlaceResource {
    pub open spec fn wf(self) -> bool {
        self.resource.wf()
    }

    /// Wraps a decoded payload; fails with `MissingIdentifier` exactly when
    /// the payload carries no string `"id"`. `options` is accepted for
    /// callers that pass construction options; none affect the wrapping.
    pub fn new(attributes: JsonValue, adapter: FleetbaseClient, options: Option<JsonValue>) -> (r:
        Result<PlaceResource, FleetbaseError>)
        ensures
            r is Ok <==> has_string_id(attributes),
            r matches Ok(p) ==> p.wf() && p.resource.attributes == attributes,
            r is Err ==> r == Err::<PlaceResource, FleetbaseError>(
                FleetbaseError::MissingIdentifier,
            ),
    {
        match Resource::new(attributes, adapter, "place") {
            Ok(resource) => Ok(PlaceResource { resource }),
            Err(e) => Err(e),
        }
    }

    /// Stores the owner. A resource-shaped argument is reduced to its
    /// nested id; one that fails to parse leaves the place unchanged; a
    /// bare id is stored as it is.
    pub fn set_owner(&mut self, owner: &str)
        requires
            old(self).wf(),
        ensures
            final(self).wf(),
            final(self).resource.id@ == old(self).resource.id@,
            final(self).resource.adapter.base_url@ == old(self).resource.adapter.base_url@,
            final(self).resource.adapter.token@ == old(self).resource.adapter.token@,
            match owner_value_spec(owner@) {
                Some(v) => {
                    &&& final(self).resource.attr_spec("owner"@) matches Some(JsonValue::Str(s))
                        && s@ == v
                    &&& forall|k: Seq<char>|
                        k != "owner"@ ==> #[trigger] final(self).resource.attr_spec(k) == old(
                            self,
                        ).resource.attr_spec(k)
                },
                None => forall|k: Seq<char>| #[trigger]
                    final(self).resource.attr_spec(k) == old(self).resource.attr_spec(k),
            },
    {
        proof {
            reveal_strlit("owner");
            reveal_strlit("id");
            assert("owner"@.len() == 5);
            assert("id"@.len() == 2);
        }
        if is_resource(owner) {
            match json_object_id(owner) {
                Some(id) => {
                    self.resource.set_attribute("owner", JsonValue::Str(id));
                },
                None => {},
            }
        } else {
            self.resource.set_attribute("owner", JsonValue::Str(owner.to_owned()));
        }
    }
}

} // verus!
