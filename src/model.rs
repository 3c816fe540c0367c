use vstd::prelude::*;

verus! {

/// How a module authenticates.
#[derive(Clone, Copy, Debug, PartialEq, Eq, Structural)]
pub enum AuthType {
    /// Shared-access signatures made with a symmetric key.
    Sas,
}

/// The pair of keys of a symmetric-key mechanism.
#[derive(Clone, Debug, PartialEq, Eq)]
pub struct SymmetricKey {
    pub primary_key: Option<String>,
    pub secondary_key: Option<String>,
}

/// An authentication mechanism: its type and the payload that type needs.
#[derive(Clone, Debug, PartialEq, Eq)]
pub struct AuthMechanism {
    pub auth_type: Option<AuthType>,
    pub symmetric_key: Option<SymmetricKey>,
}

/// A module identity of a device. The generation id and the managing agent
/// are set by the registry; a request leaves them out.
#[derive(Clone, Debug, PartialEq, Eq)]
pub struct Module {
    pub device_id: Option<String>,
    pub module_id: Option<String>,
    pub generation_id: Option<String>,
    pub managed_by: Option<String>,
    pub authentication: Option<AuthMechanism>,
}

impl Default for SymmetricKey {
    fn default() -> (r: SymmetricKey)
        ensures
            r.primary_key is None,
            r.secondary_key is None,
    {
        SymmetricKey { primary_key: None, secondary_key: None }
    }
}

impl SymmetricKey {
    pub fn primary_key(&self) -> (r: Option<&str>)
        ensures
            r is Some <==> self.primary_key is Some,
            r is Some ==> r->Some_0@ == self.primary_key->Some_0@,
    {
        match &self.primary_key {
            Some(k) => Some(k.as_str()),
            None => None,
        }
    }

    pub fn with_primary_key(self, primary_key: String) -> (r: SymmetricKey)
        ensures
            r == (SymmetricKey { primary_key: Some(primary_key), ..self }),
    {
        SymmetricKey { primary_key: Some(primary_key), ..self }
    }

    pub fn secondary_key(&self) -> (r: Option<&str>)
        ensures
            r is Some <==> self.secondary_key is Some,
            r is Some ==> r->Some_0@ == self.secondary_key->Some_0@,
    {
        match &self.secondary_key {
            Some(k) => Some(k.as_str()),
            None => None,
        }
    }

    pub fn with_secondary_key(self, secondary_key: String) -> (r: SymmetricKey)
        ensures
            r == (SymmetricKey { secondary_key: Some(secondary_key), ..self }),
    {
        SymmetricKey { secondary_key: Some(secondary_key), ..self }
    }
}

impl Default for AuthMechanism {
    fn default() -> (r: AuthMechanism)
        ensures
            r.auth_type is None,
            r.symmetric_key is None,
    {
        AuthMechanism { auth_type: None, symmetric_key: None }
    }
}

impl AuthMechanism {
    pub fn type_(&self) -> (r: Option<AuthType>)
        ensures
            r == self.auth_type,
    {
        self.auth_type
    }

    pub fn with_type(self, auth_type: AuthType) -> (r: AuthMechanism)
        ensures
            r == (AuthMechanism { auth_type: Some(auth_type), ..self }),
    {
        AuthMechanism { auth_type: Some(auth_type), ..self }
    }

    pub fn symmetric_key(&self) -> (r: Option<&SymmetricKey>)
        ensures
            r is Some <==> self.symmetric_key is Some,
            r is Some ==> *r->Some_0 == self.symmetric_key->Some_0,
    {
        self.symmetric_key.as_ref()
    }

    pub fn with_symmetric_key(self, symmetric_key: SymmetricKey) -> (r: AuthMechanism)
        ensures
            r == (AuthMechanism { symmetric_key: Some(symmetric_key), ..self }),
    {
        AuthMechanism { symmetric_key: Some(symmetric_key), ..self }
    }
}

impl Default for Module {
    fn default() -> (r: Module)
        ensures
            r.device_id is None,
            r.module_id is None,
            r.generation_id is None,
            r.managed_by is None,
            r.authentication is None,
    {
        Module {
            device_id: None,
            module_id: None,
            generation_id: None,
            managed_by: None,
            authentication: None,
        }
    }
}

fn opt_str(s: &Option<String>) -> (r: Option<&str>)
    ensures
        r is Some <==> s is Some,
        r is Some ==> r->Some_0@ == s->Some_0@,
{
    match s {
        Some(v) => Some(v.as_str()),
        None => None,
    }
}

impl Module {
    pub fn device_id(&self) -> (r: Option<&str>)
        ensures
            r is Some <==> self.device_id is Some,
            r is Some ==> r->Some_0@ == self.device_id->Some_0@,
    {
        opt_str(&self.device_id)
    }

    pub fn with_device_id(self, device_id: String) -> (r: Module)
        ensures
            r == (Module { device_id: Some(device_id), ..self }),
    {
        Module { device_id: Some(device_id), ..self }
    }

    pub fn module_id(&self) -> (r: Option<&str>)
        ensures
            r is Some <==> self.module_id is Some,
            r is Some ==> r->Some_0@ == self.module_id->Some_0@,
    {
        opt_str(&self.module_id)
    }

    pub fn with_module_id(self, module_id: String) -> (r: Module)
        ensures
            r == (Module { module_id: Some(module_id), ..self }),
    {
        Module { module_id: Some(module_id), ..self }
    }

    pub fn generation_id(&self) -> (r: Option<&str>)
        ensures
            r is Some <==> self.generation_id is Some,
            r is Some ==> r->Some_0@ == self.generation_id->Some_0@,
    {
        opt_str(&self.generation_id)
    }

    pub fn with_generation_id(self, generation_id: String) -> (r: Module)
        ensures
            r == (Module { generation_id: Some(generation_id), ..self }),
    {
        Module { generation_id: Some(generation_id), ..self }
    }

    pub fn managed_by(&self) -> (r: Option<&str>)
        ensures
            r is Some <==> self.managed_by is Some,
            r is Some ==> r->Some_0@ == self.managed_by->Some_0@,
    {
        opt_str(&self.managed_by)
    }

    pub fn with_managed_by(self, managed_by: String) -> (r: Module)
        ensures
            r == (Module { managed_by: Some(managed_by), ..self }),
    {
        Module { managed_by: Some(managed_by), ..self }
    }

    pub fn authentication(&self) -> (r: Option<&AuthMechanism>)
        ensures
            r is Some <==> self.authentication is Some,
            r is Some ==> *r->Some_0 == self.authentication->Some_0,
    {
        self.authentication.as_ref()
    }

    pub fn with_authentication(self, authentication: AuthMechanism) -> (r: Module)
        ensures
            r == (Module { authentication: Some(authentication), ..self }),
    {
        Module { authentication: Some(authentication), ..self }
    }
}

} // verus!
