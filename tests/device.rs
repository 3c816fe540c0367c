use iothubservice::client::{ApiRequest, Client, Method};
use iothubservice::device::DeviceClient;
use iothubservice::error::{Error, ErrorKind};
use iothubservice::model::{AuthMechanism, AuthType, Module, SymmetricKey};

fn client(api_version: &str) -> Client {
    Client::new(api_version, "http://localhost").unwrap()
}

fn assert_argument_empty<T>(result: Result<T, Error>) {
    match result {
        Ok(_) => panic!("Expected error but got a result."),
        Err(err) => {
            if !matches!(err.kind(), ErrorKind::ArgumentEmpty(_)) {
                panic!("Wrong error kind. Expected `ArgumentEmpty` found {:?}", err);
            }
        }
    }
}

fn sas_auth() -> AuthMechanism {
    AuthMechanism::default().with_type(AuthType::Sas).with_symmetric_key(
        SymmetricKey::default()
            .with_primary_key("pkey".to_string())
            .with_secondary_key("skey".to_string()),
    )
}

// A registry that echoes a module body with the fields it assigns.
fn echo_with_server_fields(req: &ApiRequest<Module>) -> Module {
    req.body
        .clone()
        .unwrap()
        .with_generation_id("g1".to_string())
        .with_managed_by("iotedge".to_string())
}

#[test]
fn device_client_create_empty_id_fails() {
    assert_argument_empty(DeviceClient::new(client("2018-04-11"), ""));
}

#[test]
fn device_client_create_white_space_id_fails() {
    assert_argument_empty(DeviceClient::new(client("2018-04-11"), "       "));
}

#[test]
fn module_upsert_empty_module_id_fails() {
    let device_client = DeviceClient::new(client("2018-04-11"), "d1").unwrap();
    assert_argument_empty(device_client.upsert_module("", None, false));
}

#[test]
fn module_upsert_white_space_module_id_fails() {
    let device_client = DeviceClient::new(client("2018-04-11"), "d1").unwrap();
    assert_argument_empty(device_client.upsert_module("     ", None, false));
}

#[test]
fn module_upsert_adds_module_body_without_if_match() {
    let auth = sas_auth();
    let module_request = Module::default()
        .with_device_id("d1".to_string())
        .with_module_id("m1".to_string())
        .with_authentication(auth.clone());
    let expected_response = module_request
        .clone()
        .with_generation_id("g1".to_string())
        .with_managed_by("iotedge".to_string());

    let device_client = DeviceClient::new(client("2018-04-10"), "d1").unwrap();
    let req = device_client.upsert_module("m1", Some(auth), false).unwrap();
    assert_eq!(req.method, Method::Put);
    assert_eq!(req.path, "/devices/d1/modules/m1");
    assert!(!req.if_match_any);
    assert_eq!(req.body.as_ref().unwrap(), &module_request);

    let reply = Client::reply(200, Ok(Some(echo_with_server_fields(&req))), None);
    assert_eq!(expected_response, DeviceClient::module_reply(reply).unwrap());
}

#[test]
fn module_upsert_adds_module_body_with_if_match() {
    let auth = sas_auth();
    let module_request = Module::default()
        .with_device_id("d1".to_string())
        .with_module_id("m1".to_string())
        .with_authentication(auth.clone());
    let expected_response = module_request
        .clone()
        .with_generation_id("g1".to_string())
        .with_managed_by("iotedge".to_string());

    let device_client = DeviceClient::new(client("2018-04-10"), "d1").unwrap();
    let req = device_client.upsert_module("m1", Some(auth), true).unwrap();
    assert_eq!(req.method, Method::Put);
    assert_eq!(req.path, "/devices/d1/modules/m1");
    assert!(req.if_match_any);
    assert_eq!(req.body.as_ref().unwrap(), &module_request);

    let reply = Client::reply(200, Ok(Some(echo_with_server_fields(&req))), None);
    assert_eq!(expected_response, DeviceClient::module_reply(reply).unwrap());
}

#[test]
fn module_delete_empty_module_id_fails() {
    let device_client = DeviceClient::new(client("2018-04-11"), "d1").unwrap();
    assert_argument_empty(device_client.delete_module(""));
}

#[test]
fn module_delete_white_space_module_id_fails() {
    let device_client = DeviceClient::new(client("2018-04-11"), "d1").unwrap();
    assert_argument_empty(device_client.delete_module("     "));
}

#[test]
fn module_delete_request() {
    let device_client = DeviceClient::new(client("2018-04-10"), "d1").unwrap();
    let req = device_client.delete_module("m1").unwrap();
    assert_eq!(req.method, Method::Delete);
    assert_eq!(req.path, "/devices/d1/modules/m1");
    assert!(req.if_match_any);

    assert_eq!(DeviceClient::delete_reply(200, None).unwrap(), ());
}

#[test]
fn modules_list_request() {
    let auth = sas_auth();
    let modules = vec![
        Module::default()
            .with_device_id("d1".to_string())
            .with_module_id("m1".to_string())
            .with_generation_id("g1".to_string())
            .with_managed_by("iotedge".to_string())
            .with_authentication(auth.clone()),
        Module::default()
            .with_device_id("d1".to_string())
            .with_module_id("m2".to_string())
            .with_generation_id("g2".to_string())
            .with_managed_by("iotedge".to_string())
            .with_authentication(auth.clone()),
    ];
    let expected_modules = modules.clone();

    let device_client = DeviceClient::new(client("2018-04-10"), "d1").unwrap();
    let req = device_client.list_modules();
    assert_eq!(req.method, Method::Get);
    assert_eq!(req.path, "/devices/d1/modules");
    assert!(!req.if_match_any);

    let listed = DeviceClient::modules_reply(Client::reply(200, Ok(Some(modules)), None)).unwrap();
    assert_eq!(expected_modules.len(), listed.len());
    for i in 0..listed.len() {
        assert_eq!(expected_modules[i], listed[i])
    }
}
