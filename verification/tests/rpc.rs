use forest_filecoin::rpc::json::{unexpected, JsonNumber, JsonValue, Unexpected};
use forest_filecoin::rpc::openrpc_types::{
    ContentDescriptor, DuplicateMethod, Method, Methods, ParamListError, ParamStructure,
};
use forest_filecoin::rpc::openrpc_types;
use forest_filecoin::rpc::params::{
    arrange, params2params, unparse_value, CallParams, ConcreteCallingConvention,
    RequestParameters, UnparseError,
};
use forest_filecoin::rpc::reflect::{
    ApiVersion, HasLotusJson, Params, RpcMethod, RpcMethodExt, SelfDescribingRpcModule,
};
use jsonrpsee::{MethodCallback, RpcModule};
use schemars::schema::Schema;
use serde_json::Value;
use std::sync::Arc;
use std::time::Duration;

/// Arguments that serialize to an array of these numbers.
struct Numbers(Vec<u64>);

impl HasLotusJson for Numbers {
    fn into_lotus_json_value(self) -> Result<JsonValue, serde_json::Error> {
        Ok(JsonValue::Array(self.0.into_iter().map(Value::from).collect()))
    }
}

impl Params<2> for Numbers {}

struct Add;

impl RpcMethod<2> for Add {
    const NAME: &'static str = "Filecoin.Add";
    const PARAM_NAMES: [&'static str; 2] = ["right", "left"];
    const API_VERSION: ApiVersion = ApiVersion::V1;
    type Params = Numbers;
    type Ok = Numbers;
}

struct Multiply;

impl RpcMethod<2> for Multiply {
    const NAME: &'static str = "Filecoin.Multiply";
    const PARAM_NAMES: [&'static str; 2] = ["by", "it"];
    const API_VERSION: ApiVersion = ApiVersion::V0;
    type Params = Numbers;
    type Ok = Numbers;
}

/// A method whose arguments have one name.
struct Twice;

impl RpcMethod<2> for Twice {
    const NAME: &'static str = "Filecoin.Twice";
    const PARAM_NAMES: [&'static str; 2] = ["it", "it"];
    const API_VERSION: ApiVersion = ApiVersion::V0;
    type Params = Numbers;
    type Ok = Numbers;
}

fn values(numbers: &[u64]) -> Vec<Value> {
    numbers.iter().map(|it| Value::from(*it)).collect()
}

fn json_error() -> serde_json::Error {
    serde_json::from_str::<Value>("{").unwrap_err()
}

#[test]
fn what_is_unexpected() {
    let number = |float_bits, signed, unsigned| {
        unexpected(&JsonValue::Number(JsonNumber { float_bits, signed, unsigned }))
    };
    assert_eq!(unexpected(&JsonValue::Null), Unexpected::Unit);
    assert_eq!(unexpected(&JsonValue::Bool(true)), Unexpected::Bool(true));
    assert_eq!(number(None, None, None), Unexpected::OtherNumber);
    assert_eq!(
        number(Some(1.5f64.to_bits()), Some(-1), Some(1)),
        Unexpected::Float(1.5f64.to_bits())
    );
    assert_eq!(number(None, Some(-1), Some(1)), Unexpected::Signed(-1));
    assert_eq!(number(None, None, Some(1)), Unexpected::Unsigned(1));
    assert_eq!(
        unexpected(&JsonValue::String("text".to_string())),
        Unexpected::Str("text".to_string())
    );
    assert_eq!(unexpected(&JsonValue::Array(values(&[1]))), Unexpected::Sequence);
    assert_eq!(unexpected(&JsonValue::Object(serde_json::Map::new())), Unexpected::Mapping);
}

#[test]
fn arguments_of_an_array() {
    let args = unparse_value(Ok(JsonValue::Array(values(&[1, 2]))), 2).unwrap();
    assert_eq!(args, values(&[1, 2]));
    assert!(matches!(
        unparse_value(Ok(JsonValue::Array(values(&[1, 2]))), 3),
        Err(UnparseError::ArityMismatch)
    ));
}

#[test]
fn no_arguments_may_be_null() {
    assert_eq!(unparse_value(Ok(JsonValue::Null), 0).unwrap(), values(&[]));
    assert_eq!(unparse_value(Ok(JsonValue::Array(vec![])), 0).unwrap(), values(&[]));
    assert!(matches!(
        unparse_value(Ok(JsonValue::Null), 1),
        Err(UnparseError::InvalidType(Unexpected::Unit))
    ));
}

#[test]
fn arguments_of_something_else() {
    assert!(matches!(
        unparse_value(Ok(JsonValue::Bool(false)), 0),
        Err(UnparseError::InvalidType(Unexpected::Bool(false)))
    ));
    assert!(matches!(unparse_value(Err(json_error()), 0), Err(UnparseError::Json(_))));
}

#[test]
fn parameters_by_position() {
    match Add::build_params(Numbers(vec![1, 2]), ConcreteCallingConvention::ByPosition) {
        Ok(RequestParameters::ByPosition(args)) => assert_eq!(args, values(&[1, 2])),
        other => panic!("{other:?}"),
    }
}

#[test]
fn parameters_by_name() {
    match Add::build_params(Numbers(vec![1, 2]), ConcreteCallingConvention::ByName) {
        Ok(RequestParameters::ByName(args)) => {
            assert_eq!(args.len(), 2);
            assert_eq!(args["right"], Value::from(1));
            assert_eq!(args["left"], Value::from(2));
        }
        other => panic!("{other:?}"),
    }
}

#[test]
fn the_last_argument_of_a_name_counts() {
    match arrange(&["a", "b", "a"], values(&[1, 2, 3]), ConcreteCallingConvention::ByName) {
        RequestParameters::ByName(args) => {
            assert_eq!(args.len(), 2);
            assert_eq!(args["a"], Value::from(3));
            assert_eq!(args["b"], Value::from(2));
        }
        other => panic!("{other:?}"),
    }
}

#[test]
fn parameters_of_wrong_arity() {
    assert!(matches!(
        Add::build_params(Numbers(vec![1]), ConcreteCallingConvention::ByName),
        Err(UnparseError::ArityMismatch)
    ));
    assert!(matches!(
        Add::request(Numbers(vec![1, 2, 3]), Duration::from_secs(1)),
        Err(UnparseError::ArityMismatch)
    ));
}

#[test]
fn request_gives_parameters_by_position() {
    let request = Add::request(Numbers(vec![1, 2]), Duration::from_secs(60)).unwrap();
    assert_eq!(request.method_name, "Filecoin.Add");
    assert_eq!(request.api_version, ApiVersion::V1);
    assert_eq!(request.timeout, Duration::from_secs(60));
    match request.params {
        JsonValue::Array(args) => assert_eq!(args, values(&[1, 2])),
        other => panic!("{other:?}"),
    }
}

#[test]
fn parameters_ready_to_be_sent() {
    match params2params(RequestParameters::ByPosition(values(&[1, 2]))).unwrap() {
        CallParams::Array(params) => {
            assert_eq!(jsonrpsee::core::traits::ToRpcParams::to_rpc_params(params).unwrap().unwrap().get(), "[1,2]");
        }
        other => panic!("{other:?}"),
    }
    match params2params(RequestParameters::ByPosition(vec![])).unwrap() {
        CallParams::Array(params) => assert!(jsonrpsee::core::traits::ToRpcParams::to_rpc_params(params).unwrap().is_none()),
        other => panic!("{other:?}"),
    }
    let mut object = serde_json::Map::new();
    object.insert("left".to_string(), Value::from(true));
    match params2params(RequestParameters::ByName(object)).unwrap() {
        CallParams::Object(params) => {
            assert_eq!(jsonrpsee::core::traits::ToRpcParams::to_rpc_params(params).unwrap().unwrap().get(), "{\"left\":true}");
        }
        other => panic!("{other:?}"),
    }
}

fn schema(it: bool) -> Schema {
    Schema::Bool(it)
}

#[test]
fn definition_of_a_method() {
    let method = Add::openrpc(
        [(schema(true), false), (schema(false), true)],
        (schema(true), true),
        ParamStructure::Either,
    )
    .unwrap();
    assert_eq!(method.name, "Filecoin.Add");
    assert_eq!(method.param_structure, ParamStructure::Either);
    let params = method.params.params();
    assert_eq!(params.len(), 2);
    assert_eq!(params[0].name, "right");
    assert_eq!(params[0].schema, schema(true));
    assert!(params[0].required);
    assert_eq!(params[1].name, "left");
    assert_eq!(params[1].schema, schema(false));
    assert!(!params[1].required);
    let result = method.result.unwrap();
    assert_eq!(result.name, "Filecoin.Add::Result");
    assert_eq!(result.schema, schema(true));
    assert!(!result.required);
}

#[test]
fn definitions_out_of_order() {
    let refused = Add::openrpc(
        [(schema(true), true), (schema(true), false)],
        (schema(true), false),
        ParamStructure::ByPosition,
    );
    assert!(matches!(refused, Err(ParamListError::RequiredAfterOptional)));
    let refused = Twice::openrpc(
        [(schema(true), true), (schema(true), false)],
        (schema(true), false),
        ParamStructure::ByPosition,
    );
    assert!(matches!(refused, Err(ParamListError::DuplicateName)));
}

#[test]
fn parameter_lists() {
    let descriptor = |name: &str, required| ContentDescriptor {
        name: name.to_string(),
        schema: schema(true),
        required,
    };
    assert_eq!(openrpc_types::Params::new(vec![]).unwrap().params().len(), 0);
    let list = openrpc_types::Params::new(vec![
        descriptor("a", true),
        descriptor("b", false),
        descriptor("c", false),
    ]);
    assert_eq!(list.unwrap().params().len(), 3);
    let list = openrpc_types::Params::new(vec![
        descriptor("a", true),
        descriptor("b", false),
        descriptor("c", true),
    ]);
    assert_eq!(list.err(), Some(ParamListError::RequiredAfterOptional));
    let list = openrpc_types::Params::new(vec![
        descriptor("a", true),
        descriptor("b", true),
        descriptor("a", true),
    ]);
    assert_eq!(list.err(), Some(ParamListError::DuplicateName));
}

fn method(name: &str) -> Method {
    Method {
        name: name.to_string(),
        params: openrpc_types::Params::new(vec![]).unwrap(),
        param_structure: ParamStructure::ByName,
        result: None,
    }
}

#[test]
fn method_lists() {
    let list = Methods::new(vec![method("a"), method("b")]).unwrap();
    assert_eq!(list.methods()[1].name, "b");
    let list = Methods::new(vec![method("a"), method("b"), method("a")]);
    assert_eq!(list.err(), Some(DuplicateMethod));
}

fn blocking_handler() -> MethodCallback {
    let mut module = RpcModule::new(());
    module.register_method("handler", |_, _| 7u64).unwrap().clone()
}

fn async_handler() -> MethodCallback {
    let mut module = RpcModule::new(());
    module.register_async_method("handler", |_, _| async { 7u64 }).unwrap().clone()
}

#[test]
fn a_module_describes_itself() {
    let context = Arc::new(7u8);
    let mut module = SelfDescribingRpcModule::new(context.clone(), ParamStructure::ByPosition);
    assert_eq!(module.calling_convention, ParamStructure::ByPosition);
    assert!(module.methods.is_empty());
    assert_eq!(module.schema_generator.settings().definitions_path, "#/components/schemas/");
    module.schema_generator.definitions_mut().insert("Kept".to_string(), schema(false));
    assert!(!module.is_taken("Filecoin.Add"));
    Add::register(
        &mut module,
        blocking_handler(),
        [(schema(true), false), (schema(true), false)],
        (schema(true), false),
    );
    assert!(module.is_taken("Filecoin.Add"));
    assert!(!module.is_taken("Filecoin.Multiply"));
    assert_eq!(Arc::strong_count(&context), 2);
    let (inner, document) = module.finish();
    assert_eq!(inner.method_names().collect::<Vec<_>>(), vec!["Filecoin.Add"]);
    let methods = document.methods.methods();
    assert_eq!(methods.len(), 1);
    assert_eq!(methods[0].name, "Filecoin.Add");
    assert_eq!(methods[0].param_structure, ParamStructure::ByPosition);
    assert_eq!(document.components.schemas, vec![("Kept".to_string(), schema(false))]);
}

#[test]
fn a_document_lists_methods_in_the_order_of_registration() {
    let (inner, document) =
        SelfDescribingRpcModule::new(Arc::new(()), ParamStructure::ByName).finish();
    assert_eq!(inner.method_names().count(), 0);
    assert!(document.methods.methods().is_empty());
    assert!(document.components.schemas.is_empty());

    let mut module = SelfDescribingRpcModule::new(Arc::new(()), ParamStructure::Either);
    Multiply::register(
        &mut module,
        async_handler(),
        [(schema(true), false), (schema(false), true)],
        (schema(false), true),
    );
    Add::register(
        &mut module,
        blocking_handler(),
        [(schema(true), true), (schema(true), true)],
        (schema(true), false),
    );
    let (inner, document) = module.finish();
    assert_eq!(inner.method_names().count(), 2);
    assert_eq!(format!("{:?}", inner.method("Filecoin.Multiply").unwrap()), "Async");
    assert_eq!(format!("{:?}", inner.method("Filecoin.Add").unwrap()), "Sync");
    let methods = document.methods.methods();
    assert_eq!(methods.len(), 2);
    assert_eq!(methods[0].name, "Filecoin.Multiply");
    assert_eq!(methods[0].param_structure, ParamStructure::Either);
    assert_eq!(methods[0].params.params()[0].name, "by");
    assert!(methods[0].params.params()[0].required);
    assert!(!methods[0].params.params()[1].required);
    assert_eq!(methods[0].result.as_ref().unwrap().name, "Filecoin.Multiply::Result");
    assert!(!methods[0].result.as_ref().unwrap().required);
    assert_eq!(methods[1].name, "Filecoin.Add");
    assert!(!methods[1].params.params()[0].required);
    assert_eq!(methods[1].result.as_ref().unwrap().schema, schema(true));
}
