use vstd::prelude::*;

use crate::client::{is_success, status_error, url_of, ApiRequest, Client, Method};
use crate::error::{Error, ErrorKind};
use crate::model::{AuthMechanism, Module};
use crate::validate::{ensure_not_empty, is_blank, is_empty_argument};

verus! {

/// The path of the module `module` of the device `device`.
pub open spec fn module_resource(device: Seq<char>, module: Seq<char>) -> Seq<char> {
    "/devices/"@ + device + "/modules/"@ + module
}

/// The path of the list of modules of the device `device`.
pub open spec fn modules_path(device: Seq<char>) -> Seq<char> {
    "/devices/"@ + device + "/modules"@
}

/// The body sent to create or update a module: the two identifiers and the
/// authentication where one was given, nothing that the registry assigns.
pub open spec fn is_module_body(
    m: Module,
    device: Seq<char>,
    module: Seq<char>,
    authentication: Option<AuthMechanism>,
) -> bool {
    &&& m.device_id is Some && m.device_id->Some_0@ == device
    &&& m.module_id is Some && m.module_id->Some_0@ == module
    &&& m.generation_id is None
    &&& m.managed_by is None
    &&& m.authentication == authentication
}

/// `r` is the PUT of a module body for `module` on `c`, with the
/// unconditional-match header exactly when `if_match` holds.
pub open spec fn is_upsert_request(
    c: DeviceClient,
    module: Seq<char>,
    authentication: Option<AuthMechanism>,
    if_match: bool,
    r: ApiRequest<Module>,
) -> bool {
    &&& r.method == Method::Put
    &&& r.path@ == module_resource(c.device_view(), module)
    &&& r.url@ == url_of(
        c.client_view().host_name_view(),
        module_resource(c.device_view(), module),
        c.client_view().api_version_view(),
    )
    &&& r.body is Some && is_module_body(r.body->Some_0, c.device_view(), module, authentication)
    &&& r.if_match_any == if_match
}

/// `r` is the outcome of create or update for `module` on `c`: a blank
/// identifier is refused before any request exists.
pub open spec fn upsert_outcome(
    c: DeviceClient,
    module: Seq<char>,
    authentication: Option<AuthMechanism>,
    if_match: bool,
    r: Result<ApiRequest<Module>, Error>,
) -> bool {
    &&& is_blank(module) <==> r is Err
    &&& r is Err ==> is_empty_argument(r->Err_0, "module_id"@)
    &&& r is Ok ==> is_upsert_request(c, module, authentication, if_match, r->Ok_0)
}

/// `r` is the outcome of delete for `module` on `c`: a blank identifier is
/// refused, else a DELETE with the unconditional-match header and no body.
pub open spec fn delete_outcome(c: DeviceClient, module: Seq<char>, r: Result<ApiRequest<()>, Error>) -> bool {
    &&& is_blank(module) <==> r is Err
    &&& r is Err ==> is_empty_argument(r->Err_0, "module_id"@)
    &&& r is Ok ==> {
        let q = r->Ok_0;
        &&& q.method == Method::Delete
        &&& q.path@ == module_resource(c.device_view(), module)
        &&& q.url@ == url_of(
            c.client_view().host_name_view(),
            module_resource(c.device_view(), module),
            c.client_view().api_version_view(),
        )
        &&& q.body is None
        &&& q.if_match_any
    }
}

/// `r` is the GET of the module list of `c`, with no conditional header.
pub open spec fn is_list_request(c: DeviceClient, r: ApiRequest<()>) -> bool {
    &&& r.method == Method::Get
    &&& r.path@ == modules_path(c.device_view())
    &&& r.url@ == url_of(
        c.client_view().host_name_view(),
        modules_path(c.device_view()),
        c.client_view().api_version_view(),
    )
    &&& r.body is None
    &&& !r.if_match_any
}

/// What a module says, its text fields seen as character sequences.
pub open spec fn module_view(m: Module) -> (
    Option<Seq<char>>,
    Option<Seq<char>>,
    Option<Seq<char>>,
    Option<Seq<char>>,
    Option<AuthMechanism>,
) {
    (
        opt_view(m.device_id),
        opt_view(m.module_id),
        opt_view(m.generation_id),
        opt_view(m.managed_by),
        m.authentication,
    )
}

/// An optional text field seen as an optional character sequence.
pub open spec fn opt_view(s: Option<String>) -> Option<Seq<char>> {
    match s {
        Some(v) => Some(v@),
        None => None,
    }
}

/// The module operations of one device of the registry.
#[derive(Debug)]
pub struct DeviceClient {
    client: Client,
    device_id: String,
}

impl DeviceClient {
    pub closed spec fn device_view(&self) -> Seq<char> {
        self.device_id@
    }

    /// The device identifier is never blank.
    #[verifier::type_invariant]
    spec fn inv(&self) -> bool {
        !is_blank(self.device_id@)
    }

    pub closed spec fn client_view(&self) -> Client {
        self.client
    }

    /// A client for the modules of `device_id`; a blank identifier is refused.
    pub fn new(client: Client, device_id: &str) -> (r: Result<DeviceClient, Error>)
        ensures
            is_blank(device_id@) <==> r is Err,
            r is Err ==> is_empty_argument(r->Err_0, "device_id"@),
            r is Ok ==> r->Ok_0.device_view() == device_id@ && r->Ok_0.client_view() == client,
    {
        let d = ensure_not_empty("device_id", device_id)?;
        Ok(DeviceClient { client, device_id: String::from_str(d) })
    }

    pub fn device_id(&self) -> (r: &str)
        ensures
            r@ == self.device_view(),
            !is_blank(r@),
    {
        proof {
            use_type_invariant(self);
        }
        self.device_id.as_str()
    }

    /// The call that creates the module `module_id`, with no conditional header.
    pub fn create_module(&self, module_id: &str, authentication: Option<AuthMechanism>) -> (r:
        Result<ApiRequest<Module>, Error>)
        ensures
            upsert_outcome(*self, module_id@, authentication, false, r),
    {
        self.upsert_module(module_id, authentication, false)
    }

    /// The call that lists the device's modules: a GET with no conditional header.
    pub fn list_modules(&self) -> (r: ApiRequest<()>)
        ensures
            is_list_request(*self, r),
    {
        let mut path = String::from_str("/devices/");
        path.append(self.device_id.as_str());
        path.append("/modules");
        self.client.request(Method::Get, path.as_str(), None, false)
    }

    /// The call that updates the module `module_id` whatever its current
    /// version, with the unconditional-match header.
    pub fn update_module(&self, module_id: &str, authentication: Option<AuthMechanism>) -> (r:
        Result<ApiRequest<Module>, Error>)
        ensures
            upsert_outcome(*self, module_id@, authentication, true, r),
    {
        self.upsert_module(module_id, authentication, true)
    }

    /// The PUT shared by create and update; `add_if_match` alone tells them apart.
    pub fn upsert_module(
        &self,
        module_id: &str,
        authentication: Option<AuthMechanism>,
        add_if_match: bool,
    ) -> (r: Result<ApiRequest<Module>, Error>)
        ensures
            upsert_outcome(*self, module_id@, authentication, add_if_match, r),
    {
        let id = ensure_not_empty("module_id", module_id)?;
        let mut module = Module::default().with_device_id(self.device_id.clone()).with_module_id(
            String::from_str(id),
        );
        if let Some(authentication) = authentication {
            module = module.with_authentication(authentication);
        }
        let path = module_resource_path(self.device_id.as_str(), id);
        Ok(self.client.request(Method::Put, path.as_str(), Some(module), add_if_match))
    }

    /// The call that deletes the module `module_id` whatever its current
    /// version, with the unconditional-match header.
    pub fn delete_module(&self, module_id: &str) -> (r: Result<ApiRequest<()>, Error>)
        ensures
            delete_outcome(*self, module_id@, r),
    {
        let id = ensure_not_empty("module_id", module_id)?;
        let path = module_resource_path(self.device_id.as_str(), id);
        Ok(self.client.request(Method::Delete, path.as_str(), None, true))
    }

    /// The module that create or update yields from the call's outcome: a
    /// success without a body is `EmptyResponse`.
    pub fn module_reply(outcome: Result<Option<Module>, Error>) -> (r: Result<Module, Error>)
        ensures
            r == require_body(outcome),
    {
        DeviceClient::body_required(outcome)
    }

    /// The modules that list yields from the call's outcome: the array as it
    /// came, empty included; a success without a body is `EmptyResponse`.
    pub fn modules_reply(outcome: Result<Option<Vec<Module>>, Error>) -> (r: Result<
        Vec<Module>,
        Error,
    >)
        ensures
            r == require_body(outcome),
    {
        DeviceClient::body_required(outcome)
    }

    /// What delete yields once the call completed with status `code`: success
    /// on any 2xx status whatever the body held, else the status error with the
    /// registry's message where one came.
    pub fn delete_reply(code: u16, message: Option<String>) -> (r: Result<(), Error>)
        ensures
            is_success(code) ==> r is Ok,
            !is_success(code) ==> r == Err::<(), Error>(status_error(code, message)),
    {
        match Client::reply::<()>(code, Ok(None), message) {
            Ok(_) => Ok(()),
            Err(e) => Err(e),
        }
    }

    fn body_required<T>(outcome: Result<Option<T>, Error>) -> (r: Result<T, Error>)
        ensures
            r == require_body(outcome),
    {
        match outcome {
            Ok(Some(v)) => Ok(v),
            Ok(None) => Err(Error::new(ErrorKind::EmptyResponse)),
            Err(e) => Err(e),
        }
    }
}

/// A reply's body where one is required: its absence is `EmptyResponse`.
pub open spec fn require_body<T>(outcome: Result<Option<T>, Error>) -> Result<T, Error> {
    match outcome {
        Ok(Some(v)) => Ok(v),
        Ok(None) => Err(Error { kind: ErrorKind::EmptyResponse }),
        Err(e) => Err(e),
    }
}

/// Create and update of the same module with the same authentication send the
/// same method, path, URL and body; only update carries the conditional header.
pub proof fn create_and_update_differ_only_in_if_match(
    c: DeviceClient,
    module: Seq<char>,
    authentication: Option<AuthMechanism>,
    created: Result<ApiRequest<Module>, Error>,
    updated: Result<ApiRequest<Module>, Error>,
)
    requires
        upsert_outcome(c, module, authentication, false, created),
        upsert_outcome(c, module, authentication, true, updated),
    ensures
        created is Ok <==> updated is Ok,
        created is Ok ==> {
            let a = created->Ok_0;
            let b = updated->Ok_0;
            &&& a.method == b.method
            &&& a.path@ == b.path@
            &&& a.url@ == b.url@
            &&& module_view(a.body->Some_0) == module_view(b.body->Some_0)
            &&& !a.if_match_any
            &&& b.if_match_any
        },
{
}

/// Update and delete send the unconditional-match header; create and list send
/// no conditional header.
pub proof fn conditional_header_policy(
    c: DeviceClient,
    module: Seq<char>,
    authentication: Option<AuthMechanism>,
    created: Result<ApiRequest<Module>, Error>,
    updated: Result<ApiRequest<Module>, Error>,
    deleted: Result<ApiRequest<()>, Error>,
    listed: ApiRequest<()>,
)
    requires
        upsert_outcome(c, module, authentication, false, created),
        upsert_outcome(c, module, authentication, true, updated),
        delete_outcome(c, module, deleted),
        is_list_request(c, listed),
    ensures
        created is Ok ==> !created->Ok_0.if_match_any,
        updated is Ok ==> updated->Ok_0.if_match_any,
        deleted is Ok ==> deleted->Ok_0.if_match_any,
        !listed.if_match_any,
{
}

/// A blank module identifier makes create, update and delete fail with
/// `ArgumentEmpty` and no request; a non-blank one always gives a request.
pub proof fn blank_module_id_is_refused(
    c: DeviceClient,
    module: Seq<char>,
    authentication: Option<AuthMechanism>,
    created: Result<ApiRequest<Module>, Error>,
    updated: Result<ApiRequest<Module>, Error>,
    deleted: Result<ApiRequest<()>, Error>,
)
    requires
        upsert_outcome(c, module, authentication, false, created),
        upsert_outcome(c, module, authentication, true, updated),
        delete_outcome(c, module, deleted),
    ensures
        is_blank(module) ==> is_empty_argument(created->Err_0, "module_id"@)
            && is_empty_argument(updated->Err_0, "module_id"@)
            && is_empty_argument(deleted->Err_0, "module_id"@),
        !is_blank(module) ==> created is Ok && updated is Ok && deleted is Ok,
{
}

/// A listing yields the server's array as it came, element for element and
/// in order, the empty array included; only a missing body is `EmptyResponse`.
pub proof fn listing_keeps_the_array(
    body: Option<Vec<Module>>,
    listed: Result<Vec<Module>, Error>,
)
    requires
        listed == require_body(Ok::<Option<Vec<Module>>, Error>(body)),
    ensures
        body is Some ==> listed is Ok && listed->Ok_0@ == body->Some_0@
            && listed->Ok_0@.len() == body->Some_0@.len(),
        body is None ==> listed is Err && listed->Err_0.kind == ErrorKind::EmptyResponse,
{
}

fn module_resource_path(device_id: &str, module_id: &str) -> (r: String)
    ensures
        r@ == module_resource(device_id@, module_id@),
{
    let mut path = String::from_str("/devices/");
    path.append(device_id);
    path.append("/modules/");
    path.append(module_id);
    path
}

} // verus!
