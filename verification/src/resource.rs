//! The generic resource wrapper: a required identifier, an open attribute
//! bag, and a client handle for later sub-resource actions. The identifier
//! is extracted from the `"id"` field at construction, mirrored in the bag,
//! and immutable from then on.

use vstd::prelude::*;

use crate::client::FleetbaseClient;
use crate::json::JsonValue;
use crate::FleetbaseError;

verus! {

#[derive(Debug)]
pub struct Resource {
    /// The opaque identifier, fixed at construction.
    pub id: String,
    /// The open attribute bag, a superset of any entity's typed fields.
    pub attributes: JsonValue,
    /// The client the resource initiates its own actions through.
    pub adapter: FleetbaseClient,
}

impl Resource {
    /// The construction-time invariant, preserved by every mutation: the
    /// bag is an object and its `"id"` entry is the resource's identifier.
    pub open spec fn wf(self) -> bool {
        &&& self.attributes is Obj
        &&& self.attributes.entry_spec("id"@) matches Some(JsonValue::Str(s)) && s@ == self.id@
    }

    /// The value stored under `key` in the attribute bag.
    pub open spec fn attr_spec(self, key: Seq<char>) -> Option<JsonValue> {
        self.attributes.entry_spec(key)
    }

    /// Wraps a decoded payload. The `"id"` field must be present as a
    /// string; otherwise construction fails with `MissingIdentifier`.
    /// `resource_type` is informational only and takes no part in dispatch.
    pub fn new(attributes: JsonValue, adapter: FleetbaseClient, resource_type: &str) -> (r: Result<
        Resource,
        FleetbaseError,
    >)
        ensures
            r is Ok <==> attributes.entry_spec("id"@) matches Some(JsonValue::Str(_)),
            r matches Ok(res) ==> {
                &&& res.wf()
                &&& attributes.entry_spec("id"@) matches Some(JsonValue::Str(s)) && s@ == res.id@
                &&& res.attributes == attributes
                &&& res.adapter.base_url@ == adapter.base_url@
                &&& res.adapter.token@ == adapter.token@
            },
            r is Err ==> r == Err::<Resource, FleetbaseError>(FleetbaseError::MissingIdentifier),
    {
        let id_entry = attributes.get_str_entry("id");
        match id_entry {
            Some(id) => {
                proof {
                    let stored = attributes.entry_spec("id"@).unwrap();
                    assert(stored matches JsonValue::Str(s) && s@ == id@);
                }
                let r = Resource { id, attributes, adapter };
                proof {
                    let stored = r.attributes.entry_spec("id"@).unwrap();
                    assert(stored matches JsonValue::Str(s) && s@ == r.id@);
                }
                Ok(r)
            },
            None => Err(FleetbaseError::MissingIdentifier),
        }
    }

    /// Looks `key` up in the bag. `None` both when the key is absent and
    /// when the stored value is not an object entry — the two cases are
    /// deliberately not distinguished.
    pub fn get_attribute(&self, key: &str) -> (r: Option<&JsonValue>)
        ensures
            match r {
                Some(v) => self.attr_spec(key@) == Some(*v),
                None => self.attr_spec(key@) is None,
            },
    {
        self.attributes.get_entry(key)
    }

    /// The string under `key`; `None` when absent or of another shape,
    /// never an error.
    pub fn get_string_attribute(&self, key: &str) -> (r: Option<String>)
        ensures
            match r {
                Some(s) => self.attr_spec(key@) matches Some(JsonValue::Str(v)) && v@ == s@,
                None => !(self.attr_spec(key@) matches Some(JsonValue::Str(_))),
            },
    {
        self.attributes.get_str_entry(key)
    }

    /// The boolean under `key`; `None` when absent or of another shape.
    pub fn get_bool_attribute(&self, key: &str) -> (r: Option<bool>)
        ensures
            match r {
                Some(b) => self.attr_spec(key@) == Some(JsonValue::Bool(b)),
                None => !(self.attr_spec(key@) matches Some(JsonValue::Bool(_))),
            },
    {
        self.attributes.get_bool_entry(key)
    }

    /// The integer under `key`; `None` when absent or of another shape.
    pub fn get_int_attribute(&self, key: &str) -> (r: Option<i64>)
        ensures
            match r {
                Some(n) => self.attr_spec(key@) == Some(JsonValue::Int(n)),
                None => !(self.attr_spec(key@) matches Some(JsonValue::Int(_))),
            },
    {
        self.attributes.get_int_entry(key)
    }

    /// Stores `value` under `key`, overwriting any prior entry. The one
    /// exception is the `"id"` key: the identifier is immutable once
    /// constructed, so a write to it leaves the resource unchanged.
    pub fn set_attribute(&mut self, key: &str, value: JsonValue)
        requires
            old(self).wf(),
        ensures
            final(self).wf(),
            final(self).id@ == old(self).id@,
            final(self).adapter.base_url@ == old(self).adapter.base_url@,
            final(self).adapter.token@ == old(self).adapter.token@,
            forall|k: Seq<char>|
                #[trigger] final(self).attr_spec(k) == if k == key@ && k != "id"@ {
                    Some(value)
                } else {
                    old(self).attr_spec(k)
                },
    {
        let guard = key.to_owned();
        let id_key = "id".to_owned();
        if guard == id_key {
            return ;
        }
        self.attributes.set_entry(key, value);
    }
}

/// The identifier round trip: every well-formed resource — so every
/// resource `Resource::new` hands out — stores its own identifier under the
/// `"id"` key, which is what `get_string_attribute("id")` reads back.
pub proof fn lemma_id_round_trip(r: Resource)
    requires
        r.wf(),
    ensures
        r.attr_spec("id"@) matches Some(JsonValue::Str(s)) && s@ == r.id@,
{
}

/// The write/read round trip: after the bag transition `set_attribute`
/// promises for a non-identifier key, that key reads back exactly the
/// stored value and every other key reads as before. A typed accessor of
/// the stored value's shape reads the value itself; one of any other shape
/// reads nothing — never an error — exactly as the typed accessors'
/// contracts put it.
pub proof fn lemma_set_then_get(before: Resource, after: Resource, key: Seq<char>, value: JsonValue)
    requires
        key != "id"@,
        forall|k: Seq<char>|
            #[trigger] after.attr_spec(k) == if k == key && k != "id"@ {
                Some(value)
            } else {
                before.attr_spec(k)
            },
    ensures
        after.attr_spec(key) == Some(value),
        forall|k: Seq<char>| k != key ==> #[trigger] after.attr_spec(k) == before.attr_spec(k),
        value matches JsonValue::Str(s) ==> after.attr_spec(key) == Some(JsonValue::Str(s)),
        !(value is Str) ==> !(after.attr_spec(key) matches Some(JsonValue::Str(_))),
        !(value is Bool) ==> !(after.attr_spec(key) matches Some(JsonValue::Bool(_))),
        !(value is Int) ==> !(after.attr_spec(key) matches Some(JsonValue::Int(_))),
{
}

} // verus!
