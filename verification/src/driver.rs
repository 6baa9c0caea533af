//! The driver entity and its action set: identity actions (login,
//! verify_code), tracking, device sync and the organization operations. Each
//! action prepares exactly one HTTP request; a transport executes it and the
//! decoded response comes back through `interpret_response` and, for the
//! organization operations, the wrappers below.

use vstd::prelude::*;

use crate::client::{FleetbaseClient, HttpMethod, PreparedRequest};
use crate::helpers::{is_phone, is_phone_spec};
use crate::json::{object_of_strings, object_of_strings_spec, JsonValue};
use crate::organization::{has_string_id, Organization};
use crate::resource::Resource;
use crate::FleetbaseError;

verus! {

/// The driver action set: every operation is bound to the `drivers`
/// namespace and one resource id per call.
#[derive(Debug)]
pub struct DriverActions {
    pub adapter: FleetbaseClient,
}

impl DriverActions {
    /// Logs an identity in. A phone-shaped identity goes to the SMS login
    /// path with a `{"phone": identity}` payload; any other identity needs a
    /// password and goes to the standard login path with the caller's
    /// attributes plus `identity` and `password`; without one the call fails
    /// with `MissingCredential`.
    pub fn login(&self, identity: &str, password: Option<&str>, attributes: &Vec<(String, String)>)
        -> (r: Result<PreparedRequest, FleetbaseError>)
        ensures
            is_phone_spec(identity@) ==> (r matches Ok(q) && {
                &&& q.method == HttpMethod::Post
                &&& q.url@ == self.adapter.base_url@ + "drivers/login-with-sms"@
                &&& q.authorization@ == self.adapter.auth_header_spec()
                &&& q.query@.len() == 0
                &&& q.body matches Some(b) && {
                    &&& b.entry_spec("phone"@) matches Some(JsonValue::Str(p)) && p@ == identity@
                    &&& forall|k: Seq<char>| k != "phone"@ ==> #[trigger] b.entry_spec(k) is None
                }
            }),
            !is_phone_spec(identity@) && password is Some ==> (r matches Ok(q) && {
                &&& q.method == HttpMethod::Post
                &&& q.url@ == self.adapter.base_url@ + "drivers/login"@
                &&& q.authorization@ == self.adapter.auth_header_spec()
                &&& q.query@.len() == 0
                &&& q.body matches Some(b) && {
                    &&& b.entry_spec("password"@) matches Some(JsonValue::Str(p)) && p@
                        == password.unwrap()@
                    &&& b.entry_spec("identity"@) matches Some(JsonValue::Str(p)) && p@
                        == identity@
                    &&& forall|k: Seq<char>|
                        k != "password"@ && k != "identity"@ ==> #[trigger] b.entry_spec(k)
                            == object_of_strings_spec(attributes@, k)
                }
            }),
            !is_phone_spec(identity@) && password is None ==> r == Err::<
                PreparedRequest,
                FleetbaseError,
            >(FleetbaseError::MissingCredential),
    {
        if is_phone(identity) {
            let mut body = JsonValue::empty_object();
            body.set_entry("phone", JsonValue::Str(identity.to_owned()));
            Ok(self.adapter.request_path(
                HttpMethod::Post,
                "drivers/login-with-sms",
                Vec::new(),
                Some(body),
            ))
        } else {
            match password {
                Some(pwd) => {
                    let mut body = object_of_strings(attributes);
                    body.set_entry("identity", JsonValue::Str(identity.to_owned()));
                    body.set_entry("password", JsonValue::Str(pwd.to_owned()));
                    proof {
                        reveal_strlit("identity");
                        reveal_strlit("password");
                        assert("identity"@[0] == 'i');
                        assert("password"@[0] == 'p');
                        assert("identity"@ != "password"@);
                    }
                    Ok(self.adapter.request_path(
                        HttpMethod::Post,
                        "drivers/login",
                        Vec::new(),
                        Some(body),
                    ))
                },
                None => Err(FleetbaseError::MissingCredential),
            }
        }
    }

    /// Submits a verification code: always one POST with the caller's
    /// attributes plus `identity` and `code`.
    pub fn verify_code(&self, identity: &str, code: &str, attributes: &Vec<(String, String)>) -> (r:
        PreparedRequest)
        ensures
            r.method == HttpMethod::Post,
            r.url@ == self.adapter.base_url@ + "drivers/verify-code"@,
            r.authorization@ == self.adapter.auth_header_spec(),
            r.query@.len() == 0,
            r.body matches Some(b) && {
                &&& b.entry_spec("code"@) matches Some(JsonValue::Str(p)) && p@ == code@
                &&& b.entry_spec("identity"@) matches Some(JsonValue::Str(p)) && p@ == identity@
                &&& forall|k: Seq<char>|
                    k != "code"@ && k != "identity"@ ==> #[trigger] b.entry_spec(k)
                        == object_of_strings_spec(attributes@, k)
            },
    {
        let mut body = object_of_strings(attributes);
        body.set_entry("identity", JsonValue::Str(identity.to_owned()));
        body.set_entry("code", JsonValue::Str(code.to_owned()));
        proof {
            reveal_strlit("identity");
            reveal_strlit("code");
            assert("identity"@.len() == 8);
            assert("code"@.len() == 4);
            assert("identity"@ != "code"@);
        }
        self.adapter.request_path(HttpMethod::Post, "drivers/verify-code", Vec::new(), Some(body))
    }

    /// Reports a position update: POST `drivers/<id>/track`.
    pub fn track(
        &self,
        id: &str,
        params: Vec<(String, String)>,
        options: Vec<(String, String)>,
    ) -> (r: PreparedRequest)
        ensures
            r.method == HttpMethod::Post,
            r.url@ == self.adapter.base_url@ + "drivers/"@ + id@ + "/track"@,
            r.authorization@ == self.adapter.auth_header_spec(),
            r.query@.len() == 0,
            r.body matches Some(b) && forall|k: Seq<char>| #[trigger]
                b.entry_spec(k) == object_of_strings_spec(params@, k),
    {
        let body = object_of_strings(&params);
        self.adapter.request_join3(
            HttpMethod::Post,
            "drivers/",
            id,
            "/track",
            Vec::new(),
            Some(body),
        )
    }

    /// Lists the organizations the driver belongs to: GET
    /// `drivers/<id>/organizations` with the params as query string.
    pub fn list_organizations(
        &self,
        id: &str,
        params: Vec<(String, String)>,
        options: Vec<(String, String)>,
    ) -> (r: PreparedRequest)
        ensures
            r.method == HttpMethod::Get,
            r.url@ == self.adapter.base_url@ + "drivers/"@ + id@ + "/organizations"@,
            r.authorization@ == self.adapter.auth_header_spec(),
            r.query == params,
            r.body is None,
    {
        self.adapter.request_join3(HttpMethod::Get, "drivers/", id, "/organizations", params, None)
    }

    /// Switches the driver's active organization: POST
    /// `drivers/<id>/switch-organization`.
    pub fn switch_organization(
        &self,
        id: &str,
        params: Vec<(String, String)>,
        options: Vec<(String, String)>,
    ) -> (r: PreparedRequest)
        ensures
            r.method == HttpMethod::Post,
            r.url@ == self.adapter.base_url@ + "drivers/"@ + id@ + "/switch-organization"@,
            r.authorization@ == self.adapter.auth_header_spec(),
            r.query@.len() == 0,
            r.body matches Some(b) && forall|k: Seq<char>| #[trigger]
                b.entry_spec(k) == object_of_strings_spec(params@, k),
    {
        let body = object_of_strings(&params);
        self.adapter.request_join3(
            HttpMethod::Post,
            "drivers/",
            id,
            "/switch-organization",
            Vec::new(),
            Some(body),
        )
    }

    /// Reads the driver's active organization: GET
    /// `drivers/<id>/current-organization` with the params as query string.
    pub fn current_organization(
        &self,
        id: &str,
        params: Vec<(String, String)>,
        options: Vec<(String, String)>,
    ) -> (r: PreparedRequest)
        ensures
            r.method == HttpMethod::Get,
            r.url@ == self.adapter.base_url@ + "drivers/"@ + id@ + "/current-organization"@,
            r.authorization@ == self.adapter.auth_header_spec(),
            r.query == params,
            r.body is None,
    {
        self.adapter.request_join3(
            HttpMethod::Get,
            "drivers/",
            id,
            "/current-organization",
            params,
            None,
        )
    }

    /// Fetches the driver itself: GET `drivers/<id>`.
    pub fn retrieve(&self, id: &str) -> (r: PreparedRequest)
        ensures
            r.method == HttpMethod::Get,
            r.url@ == self.adapter.base_url@ + "drivers/"@ + id@,
            r.authorization@ == self.adapter.auth_header_spec(),
            r.query@.len() == 0,
            r.body is None,
    {
        self.adapter.request_join2(HttpMethod::Get, "drivers/", id, Vec::new(), None)
    }

    /// Registers the driver's device: POST `drivers/<id>/register-device`.
    pub fn sync_device(
        &self,
        id: &str,
        params: Vec<(String, String)>,
        options: Vec<(String, String)>,
    ) -> (r: PreparedRequest)
        ensures
            r.method == HttpMethod::Post,
            r.url@ == self.adapter.base_url@ + "drivers/"@ + id@ + "/register-device"@,
            r.authorization@ == self.adapter.auth_header_spec(),
            r.query@.len() == 0,
            r.body matches Some(b) && forall|k: Seq<char>| #[trigger]
                b.entry_spec(k) == object_of_strings_spec(params@, k),
    {
        let body = object_of_strings(&params);
        self.adapter.request_join3(
            HttpMethod::Post,
            "drivers/",
            id,
            "/register-device",
            Vec::new(),
            Some(body),
        )
    }
}

/// Wraps a decoded organization response, which may be one object or an
/// array of objects, into organization values. A payload without a string
/// `"id"` anywhere in the batch fails the whole call.
pub fn serialize_organizations(response: JsonValue, adapter: &FleetbaseClient) -> (r: Result<
    Vec<Organization>,
    FleetbaseError,
>)
    ensures
        response matches JsonValue::Arr(items) ==> {
            &&& (r is Ok <==> forall|i: int|
                0 <= i < items@.len() ==> has_string_id(#[trigger] items@[i]))
            &&& r matches Ok(os) ==> {
                &&& os@.len() == items@.len()
                &&& forall|i: int|
                    0 <= i < os@.len() ==> (#[trigger] os@[i]).wf() && os@[i].resource.attributes
                        == items@[i]
            }
        },
        !(response is Arr) ==> {
            &&& (r is Ok <==> has_string_id(response))
            &&& r matches Ok(os) ==> os@.len() == 1 && os@[0].wf() && os@[0].resource.attributes
                == response
        },
        r is Err ==> r == Err::<Vec<Organization>, FleetbaseError>(
            FleetbaseError::MissingIdentifier,
        ),
{
    match response {
        JsonValue::Arr(mut items) => {
            let ghost orig_vec = items;
            let ghost orig = items@;
            let mut out: Vec<Organization> = Vec::new();
            proof {
                assert(items@ =~= orig.skip(0));
            }
            while items.len() > 0
                invariant
                    response == JsonValue::Arr(orig_vec),
                    orig_vec@ == orig,
                    orig.len() == out@.len() + items@.len(),
                    items@ == orig.skip(out@.len() as int),
                    forall|i: int|
                        0 <= i < out@.len() ==> (#[trigger] out@[i]).wf()
                            && out@[i].resource.attributes == orig[i],
                    forall|i: int| 0 <= i < out@.len() ==> has_string_id(#[trigger] orig[i]),
                decreases items.len(),
            {
                let ghost k = out@.len() as int;
                let item = items.remove(0);
                proof {
                    assert(orig.skip(k)[0] == orig[k]);
                    assert(items@ =~= orig.skip(k + 1));
                }
                match Organization::new(item, adapter.duplicate()) {
                    Ok(o) => {
                        out.push(o);
                    },
                    Err(e) => {
                        proof {
                            assert(!has_string_id(orig[k]));
                        }
                        return Err(e);
                    },
                }
            }
            Ok(out)
        },
        other => {
            match Organization::new(other, adapter.duplicate()) {
                Ok(o) => {
                    let mut out: Vec<Organization> = Vec::new();
                    out.push(o);
                    Ok(out)
                },
                Err(e) => Err(e),
            }
        },
    }
}

/// The driver entity: a resource snapshot plus the session fields a login
/// fills in.
#[derive(Debug)]
pub struct Driver {
    pub resource: Resource,
    pub token: Option<String>,
    pub online: Option<bool>,
}

impl Driver {
    pub open spec fn wf(self) -> bool {
        self.resource.wf()
    }

    /// Wraps a decoded payload; fails with `MissingIdentifier` exactly when
    /// the payload carries no string `"id"`.
    pub fn new(attributes: JsonValue, adapter: FleetbaseClient) -> (r: Result<
        Driver,
        FleetbaseError,
    >)
        ensures
            r is Ok <==> has_string_id(attributes),
            r matches Ok(d) ==> {
                &&& d.wf()
                &&& d.resource.attributes == attributes
                &&& d.token is None
                &&& d.online is None
            },
            r is Err ==> r == Err::<Driver, FleetbaseError>(FleetbaseError::MissingIdentifier),
    {
        match Resource::new(attributes, adapter, "driver") {
            Ok(resource) => Ok(Driver { resource, token: None, online: None }),
            Err(e) => Err(e),
        }
    }

    /// The session token, when a login has stored one.
    pub fn token(&self) -> (r: Option<&str>)
        ensures
            match r {
                Some(t) => self.token matches Some(x) && x@ == t@,
                None => self.token is None,
            },
    {
        match &self.token {
            Some(t) => Some(t.as_str()),
            None => None,
        }
    }

    /// Whether the driver is online; unknown reads as offline.
    pub fn is_online(&self) -> (r: bool)
        ensures
            r == (self.online == Some(true)),
    {
        match self.online {
            Some(b) => b,
            None => false,
        }
    }

    fn actions(&self) -> (r: DriverActions)
        ensures
            r.adapter.base_url@ == self.resource.adapter.base_url@,
            r.adapter.token@ == self.resource.adapter.token@,
    {
        DriverActions { adapter: self.resource.adapter.duplicate() }
    }

    /// Prepares this driver's position update.
    pub fn track(&self, params: Vec<(String, String)>, options: Vec<(String, String)>) -> (r:
        PreparedRequest)
        ensures
            r.method == HttpMethod::Post,
            r.url@ == self.resource.adapter.base_url@ + "drivers/"@ + self.resource.id@
                + "/track"@,
            r.authorization@ == "Bearer "@ + self.resource.adapter.token@,
            r.query@.len() == 0,
            r.body matches Some(b) && forall|k: Seq<char>| #[trigger]
                b.entry_spec(k) == object_of_strings_spec(params@, k),
    {
        self.actions().track(self.resource.id.as_str(), params, options)
    }

    /// Prepares this driver's device registration.
    pub fn sync_device(&self, params: Vec<(String, String)>, options: Vec<(String, String)>) -> (r:
        PreparedRequest)
        ensures
            r.method == HttpMethod::Post,
            r.url@ == self.resource.adapter.base_url@ + "drivers/"@ + self.resource.id@
                + "/register-device"@,
            r.authorization@ == "Bearer "@ + self.resource.adapter.token@,
            r.query@.len() == 0,
            r.body matches Some(b) && forall|k: Seq<char>| #[trigger]
                b.entry_spec(k) == object_of_strings_spec(params@, k),
    {
        self.actions().sync_device(self.resource.id.as_str(), params, options)
    }

    /// Prepares the organization listing for this driver.
    pub fn list_organizations(
        &self,
        params: Vec<(String, String)>,
        options: Vec<(String, String)>,
    ) -> (r: PreparedRequest)
        ensures
            r.method == HttpMethod::Get,
            r.url@ == self.resource.adapter.base_url@ + "drivers/"@ + self.resource.id@
                + "/organizations"@,
            r.authorization@ == "Bearer "@ + self.resource.adapter.token@,
            r.query == params,
            r.body is None,
    {
        self.actions().list_organizations(self.resource.id.as_str(), params, options)
    }

    /// Prepares the organization switch; the target id rides in the `next`
    /// parameter.
    pub fn switch_organization(&self, organization_id: &str, options: Vec<(String, String)>) -> (r:
        PreparedRequest)
        ensures
            r.method == HttpMethod::Post,
            r.url@ == self.resource.adapter.base_url@ + "drivers/"@ + self.resource.id@
                + "/switch-organization"@,
            r.authorization@ == "Bearer "@ + self.resource.adapter.token@,
            r.query@.len() == 0,
            r.body matches Some(b) && {
                &&& b.entry_spec("next"@) matches Some(JsonValue::Str(p)) && p@
                    == organization_id@
                &&& forall|k: Seq<char>| k != "next"@ ==> #[trigger] b.entry_spec(k) is None
            },
    {
        let mut params: Vec<(String, String)> = Vec::new();
        params.push(("next".to_owned(), organization_id.to_owned()));
        proof {
            assert(params@.len() == 1);
            assert(params@.last().0@ == "next"@);
            assert forall|k: Seq<char>|
                k != "next"@ implies object_of_strings_spec(params@, k) is None by {
                assert(params@.drop_last() =~= Seq::<(String, String)>::empty());
                assert(object_of_strings_spec(params@.drop_last(), k) is None);
            };
        }
        self.actions().switch_organization(self.resource.id.as_str(), params, options)
    }

    /// Prepares the active-organization read for this driver.
    pub fn current_organization(
        &self,
        params: Vec<(String, String)>,
        options: Vec<(String, String)>,
    ) -> (r: PreparedRequest)
        ensures
            r.method == HttpMethod::Get,
            r.url@ == self.resource.adapter.base_url@ + "drivers/"@ + self.resource.id@
                + "/current-organization"@,
            r.authorization@ == "Bearer "@ + self.resource.adapter.token@,
            r.query == params,
            r.body is None,
    {
        self.actions().current_organization(self.resource.id.as_str(), params, options)
    }
}

} // verus!
