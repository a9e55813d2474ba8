use databook::plugin_manager::InvocationError;
use databook::rest::{InvokePluginRequest, InvokePluginResponse};
use databook::server::{rest_invoke, Code, DatabookGrpc, GetRequest, GetResponse, Status};

#[test]
fn grpc_answers_with_the_output() {
    let service = DatabookGrpc::new();
    assert_eq!(
        service.get(Some(Ok("Hello, World".to_string()))),
        Ok(GetResponse { output: "Hello, World".to_string() })
    );
}

#[test]
fn grpc_hides_why_an_invocation_failed() {
    let service = DatabookGrpc::default();
    let internal = Status { code: Code::Internal, message: "Internal Error".to_string() };
    assert_eq!(service.get(Some(Err(InvocationError::PluginDoesNotExist))), Err(internal));
    assert_eq!(
        service.get(Some(Err(InvocationError::GenericError("trap".to_string())))),
        Err(Status { code: Code::Internal, message: "Internal Error".to_string() })
    );
}

#[test]
fn grpc_without_a_registry() {
    assert_eq!(
        DatabookGrpc::new().get(None),
        Err(Status { code: Code::Internal, message: "No plugins setup".to_string() })
    );
}

#[test]
fn rest_answers_with_the_output() {
    assert_eq!(
        rest_invoke(Some(Ok("Hello, World".to_string()))),
        InvokePluginResponse { output: Some("Hello, World".to_string()), error: None }
    );
    assert_eq!(
        rest_invoke(Some(Ok(String::new()))),
        InvokePluginResponse { output: Some(String::new()), error: None }
    );
}

#[test]
fn rest_names_a_plugin_that_does_not_exist() {
    assert_eq!(
        rest_invoke(Some(Err(InvocationError::PluginDoesNotExist))),
        InvokePluginResponse {
            output: None,
            error: Some("error while invoking plugin PluginDoesNotExist".to_string()),
        }
    );
}

#[test]
fn rest_names_an_engine_failure() {
    assert_eq!(
        rest_invoke(Some(Err(InvocationError::GenericError("trap".to_string())))),
        InvokePluginResponse {
            output: None,
            error: Some("error while invoking plugin GenericError(\"trap\")".to_string()),
        }
    );
}

#[test]
fn rest_without_a_registry() {
    assert_eq!(
        rest_invoke(None),
        InvokePluginResponse { output: None, error: Some("No plugins setup".to_string()) }
    );
}

#[test]
fn requests_hold_name_and_options() {
    let rest = InvokePluginRequest {
        name: "hello_world".to_string(),
        options: vec![("k".to_string(), "v".to_string())],
    };
    let rpc = GetRequest { name: rest.name.clone(), options: rest.options.clone() };
    assert_eq!(rpc.name, "hello_world");
    assert_eq!(rpc.options, rest.options);
}
