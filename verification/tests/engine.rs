use mxnet_rs::autograd::{
    is_recording, is_recording_call, is_training, is_training_call, pause, predict_mode, record,
    train_mode, RecordingStateScope,
};
use mxnet_rs::base::{check_call, EngineCall, EngineReply, EngineValue, Error};
use mxnet_rs::context::{gpu, DeviceType};
use mxnet_rs::ndarray::{NDArray, NDArrayBuilder, NDBlob};
use mxnet_rs::op_map::OpMap;
use mxnet_rs::operator::{Arith, Operator};
use mxnet_rs::shared::{released_reply, GetHandle, Ledger};
use mxnet_rs::symbol::{SymBlob, Symbol};
use std::collections::HashMap;

struct FakeArray {
    shape: Vec<u32>,
    data: Vec<f32>,
    dtype: i32,
    device_type: i32,
    device_id: i32,
}

/// An engine that lives in memory: it keeps arrays, counts what it hands
/// out and what it takes back, and knows a few operators.
struct FakeEngine {
    next_handle: usize,
    arrays: HashMap<usize, FakeArray>,
    symbols: HashMap<usize, String>,
    ops: Vec<(String, usize, Vec<String>)>,
    recording: bool,
    training: bool,
    allocated: usize,
    released: usize,
    calls: usize,
}

fn ok(value: EngineValue) -> EngineReply {
    EngineReply::success(value)
}

fn fail(message: &str) -> EngineReply {
    EngineReply::failure(-1, message.to_string())
}

impl FakeEngine {
    fn new() -> FakeEngine {
        let mut ops = Vec::new();
        let mut handle = 1000;
        for (name, args) in [
            ("_plus", vec!["lhs", "rhs"]),
            ("_minus", vec!["lhs", "rhs"]),
            ("_mul", vec!["lhs", "rhs"]),
            ("_div", vec!["lhs", "rhs"]),
            ("_mod", vec!["lhs", "rhs"]),
            ("_plus_scalar", vec!["data", "scalar"]),
            ("_minus_scalar", vec!["data", "scalar"]),
            ("_mul_scalar", vec!["data", "scalar"]),
            ("_div_scalar", vec!["data", "scalar"]),
            ("_mod_scalar", vec!["data", "scalar"]),
            ("copyto", vec!["data"]),
            ("argmax_channel", vec!["data"]),
            ("_Plus", vec!["lhs", "rhs"]),
            ("_PlusScalar", vec!["data", "scalar"]),
        ] {
            handle += 1;
            ops.push((
                name.to_string(),
                handle,
                args.into_iter().map(|a| a.to_string()).collect(),
            ));
        }
        FakeEngine {
            next_handle: 1,
            arrays: HashMap::new(),
            symbols: HashMap::new(),
            ops,
            recording: false,
            training: false,
            allocated: 0,
            released: 0,
            calls: 0,
        }
    }

    fn allocate(&mut self, array: FakeArray) -> usize {
        let handle = self.next_handle;
        self.next_handle += 1;
        self.allocated += 1;
        self.arrays.insert(handle, array);
        handle
    }

    fn empty_array() -> FakeArray {
        FakeArray { shape: Vec::new(), data: Vec::new(), dtype: 0, device_type: 1, device_id: 0 }
    }

    fn op_name(&self, creator: usize) -> Option<String> {
        self.ops.iter().find(|op| op.1 == creator).map(|op| op.0.clone())
    }

    fn compute(&self, name: &str, inputs: &[usize], scalar: Option<f32>) -> Option<FakeArray> {
        let first = self.arrays.get(inputs.first()?)?;
        let base = name.trim_end_matches("_scalar");
        let apply = |x: f32, y: f32| match base {
            "_plus" => x + y,
            "_minus" => x - y,
            "_mul" => x * y,
            "_div" => x / y,
            "_mod" => x % y,
            _ => x,
        };
        let data: Vec<f32> = if let Some(s) = scalar {
            first.data.iter().map(|x| apply(*x, s)).collect()
        } else if inputs.len() > 1 {
            let second = self.arrays.get(&inputs[1])?;
            first.data.iter().zip(second.data.iter()).map(|(x, y)| apply(*x, *y)).collect()
        } else {
            first.data.clone()
        };
        Some(FakeArray {
            shape: first.shape.clone(),
            data,
            dtype: first.dtype,
            device_type: first.device_type,
            device_id: first.device_id,
        })
    }

    fn perform(&mut self, call: EngineCall) -> EngineReply {
        self.calls += 1;
        match call {
            EngineCall::CreateNone => {
                let handle = self.allocate(FakeEngine::empty_array());
                ok(EngineValue::Handle(handle))
            }
            EngineCall::Create { shape, device_type, device_id, delay_alloc: _ } => {
                let handle = self.allocate(FakeArray {
                    shape,
                    data: Vec::new(),
                    dtype: 0,
                    device_type,
                    device_id,
                });
                ok(EngineValue::Handle(handle))
            }
            EngineCall::FreeArray { handle } => match self.arrays.remove(&handle) {
                Some(_) => {
                    self.released += 1;
                    ok(EngineValue::Unit)
                }
                None => fail("no such array"),
            },
            EngineCall::GetShape { handle } => match self.arrays.get(&handle) {
                Some(a) => ok(EngineValue::Dims(a.shape.clone())),
                None => fail("no such array"),
            },
            EngineCall::GetDType { handle } => match self.arrays.get(&handle) {
                Some(a) => ok(EngineValue::Int(a.dtype)),
                None => fail("no such array"),
            },
            EngineCall::GetContext { handle } => match self.arrays.get(&handle) {
                Some(a) => ok(EngineValue::Device {
                    device_type: a.device_type,
                    device_id: a.device_id,
                }),
                None => fail("no such array"),
            },
            EngineCall::GetData { handle, len } => match self.arrays.get(&handle) {
                Some(a) if len <= a.data.len() => {
                    ok(EngineValue::Data(a.data[..len].iter().map(|x| x.to_bits()).collect()))
                }
                Some(_) => fail("not so many elements"),
                None => fail("no such array"),
            },
            EngineCall::SyncCopyFromCpu { handle, data } => match self.arrays.get_mut(&handle) {
                Some(a) => {
                    a.data = data.into_iter().map(f32::from_bits).collect();
                    ok(EngineValue::Unit)
                }
                None => fail("no such array"),
            },
            EngineCall::WaitToRead { handle } | EngineCall::WaitToWrite { handle } => {
                if self.arrays.contains_key(&handle) {
                    ok(EngineValue::Unit)
                } else {
                    fail("no such array")
                }
            }
            EngineCall::WaitAll => ok(EngineValue::Unit),
            EngineCall::Slice { handle, begin, end } => {
                let (row, shape, rest) = match self.arrays.get(&handle) {
                    Some(a) if !a.shape.is_empty() && begin <= end && end <= a.shape[0] => {
                        let row: usize = a.shape[1..].iter().map(|d| *d as usize).product();
                        let mut shape = a.shape.clone();
                        shape[0] = end - begin;
                        (row, shape, a.data[begin as usize * row..end as usize * row].to_vec())
                    }
                    _ => return fail("bad slice"),
                };
                let _ = row;
                let sliced = self.allocate(FakeArray {
                    shape,
                    data: rest,
                    dtype: 0,
                    device_type: 1,
                    device_id: 0,
                });
                ok(EngineValue::Handle(sliced))
            }
            EngineCall::CreateVariable { name } => {
                let handle = self.next_handle;
                self.next_handle += 1;
                self.allocated += 1;
                self.symbols.insert(handle, name);
                ok(EngineValue::Handle(handle))
            }
            EngineCall::FreeSymbol { handle } => match self.symbols.remove(&handle) {
                Some(_) => {
                    self.released += 1;
                    ok(EngineValue::Unit)
                }
                None => fail("no such symbol"),
            },
            EngineCall::ListAtomicSymbolCreators => {
                ok(EngineValue::Handles(self.ops.iter().map(|op| op.1).collect()))
            }
            EngineCall::GetAtomicSymbolInfo { creator } => {
                match self.ops.iter().find(|op| op.1 == creator) {
                    Some(op) => {
                        ok(EngineValue::Info { name: op.0.clone(), arg_names: op.2.clone() })
                    }
                    None => fail("no such creator"),
                }
            }
            EngineCall::ListAllOpNames => {
                ok(EngineValue::Names(self.ops.iter().map(|op| op.0.clone()).collect()))
            }
            EngineCall::GetOpHandle { name } => match self.ops.iter().find(|op| op.0 == name) {
                Some(op) => ok(EngineValue::Handle(op.1)),
                None => fail("no such operator"),
            },
            EngineCall::CreateAtomicSymbol { creator, keys: _, values: _ } => {
                match self.op_name(creator) {
                    Some(name) => {
                        let handle = self.next_handle;
                        self.next_handle += 1;
                        self.allocated += 1;
                        self.symbols.insert(handle, name);
                        ok(EngineValue::Handle(handle))
                    }
                    None => fail("no such creator"),
                }
            }
            EngineCall::Compose { symbol, name: _, keys: _, inputs } => {
                if self.symbols.contains_key(&symbol)
                    && inputs.iter().all(|i| self.symbols.contains_key(i))
                {
                    ok(EngineValue::Unit)
                } else {
                    fail("no such symbol")
                }
            }
            EngineCall::ImperativeInvoke { creator, inputs, outputs, keys, values } => {
                let name = match self.op_name(creator) {
                    Some(name) => name,
                    None => return fail("no such creator"),
                };
                let scalar = keys
                    .iter()
                    .position(|k| k == "scalar")
                    .and_then(|i| values[i].parse::<f32>().ok());
                if name.ends_with("_scalar") && scalar.is_none() {
                    return fail("scalar is missing");
                }
                let result = match self.compute(&name, &inputs, scalar) {
                    Some(result) => result,
                    None => return fail("bad inputs"),
                };
                if outputs.is_empty() {
                    let handle = self.allocate(result);
                    ok(EngineValue::Handles(vec![handle]))
                } else if self.arrays.contains_key(&outputs[0]) {
                    self.arrays.insert(outputs[0], result);
                    ok(EngineValue::Handles(outputs))
                } else {
                    fail("no such array")
                }
            }
            EngineCall::SetIsRecording { on } => {
                let prev = self.recording;
                self.recording = on;
                ok(EngineValue::Int(prev as i32))
            }
            EngineCall::SetIsTraining { on } => {
                let prev = self.training;
                self.training = on;
                ok(EngineValue::Int(prev as i32))
            }
            EngineCall::IsRecording => ok(EngineValue::Flag(self.recording)),
            EngineCall::IsTraining => ok(EngineValue::Flag(self.training)),
            EngineCall::GetGpuCount => ok(EngineValue::Int(2)),
            EngineCall::GetGpuMemoryInfo { device_id } => {
                if device_id < 2 {
                    ok(EngineValue::Memory { free: 10, total: 16 })
                } else {
                    fail("no such device")
                }
            }
        }
    }
}

fn bits(data: &[f32]) -> Vec<u32> {
    data.iter().map(|x| x.to_bits()).collect()
}

fn registry(engine: &mut FakeEngine) -> OpMap {
    let creators = engine.perform(OpMap::list_creators_call()).handles().unwrap();
    let infos: Vec<EngineReply> =
        creators.iter().map(|c| engine.perform(OpMap::describe_call(*c))).collect();
    let names = engine.perform(OpMap::list_names_call()).names().unwrap();
    let handles: Vec<EngineReply> =
        names.iter().map(|n| engine.perform(OpMap::op_handle_call(n))).collect();
    OpMap::new(&creators, &infos, &names, &handles).unwrap()
}

fn describe(engine: &mut FakeEngine, op_map: &OpMap, name: &str) -> EngineReply {
    engine.perform(Operator::new_call(op_map, name).unwrap())
}

fn operator(engine: &mut FakeEngine, op_map: &OpMap, name: &str) -> Operator {
    let info = describe(engine, op_map, name);
    Operator::new(op_map, name, info).unwrap()
}

fn empty(engine: &mut FakeEngine, arrays: &mut Ledger<NDBlob>) -> NDArray {
    NDArray::new(arrays, &engine.perform(NDArray::new_call())).unwrap()
}

fn create(
    engine: &mut FakeEngine,
    arrays: &mut Ledger<NDBlob>,
    builder: NDArrayBuilder,
) -> NDArray {
    let reply = engine.perform(builder.create());
    let (array, fill) = builder.created(arrays, &reply).unwrap();
    if let Some(call) = fill {
        engine.perform(call).done().unwrap();
    }
    array
}

fn drop_array(engine: &mut FakeEngine, arrays: &mut Ledger<NDBlob>, array: NDArray) {
    let handle = array.handle();
    if let Some(call) = array.release(arrays).unwrap() {
        released_reply(handle, engine.perform(call)).unwrap();
    }
}

fn shape_of(engine: &mut FakeEngine, array: &NDArray) -> Vec<u32> {
    NDArray::shape(engine.perform(array.shape_call())).unwrap()
}

fn size_of(engine: &mut FakeEngine, array: &NDArray) -> u32 {
    NDArray::size(engine.perform(array.shape_call())).unwrap()
}

fn data_of(engine: &mut FakeEngine, array: &NDArray) -> Vec<f32> {
    let size = size_of(engine, array);
    NDArray::data(engine.perform(array.data_call(size)))
        .unwrap()
        .into_iter()
        .map(f32::from_bits)
        .collect()
}

fn add_assign(engine: &mut FakeEngine, op_map: &OpMap, a: &NDArray, b: &NDArray) {
    let info = describe(engine, op_map, Arith::Add.name());
    let call = a.arith(Arith::Add, b, a, op_map, info).unwrap();
    engine.perform(call).done().unwrap();
}

fn add_assign_scalar(engine: &mut FakeEngine, op_map: &OpMap, a: &NDArray, x: f32) {
    let info = describe(engine, op_map, &Arith::Add.scalar_name());
    let call = a.arith_scalar(Arith::Add, &x, a, op_map, info).unwrap();
    engine.perform(call).done().unwrap();
}

fn enter(engine: &mut FakeEngine, scope: &mut RecordingStateScope) {
    let replies: Vec<EngineReply> =
        scope.enter_calls().into_iter().map(|c| engine.perform(c)).collect();
    scope.enter(&replies).unwrap();
}

fn exit(engine: &mut FakeEngine, scope: RecordingStateScope) {
    for call in scope.exit() {
        engine.perform(call).done().unwrap();
    }
}

#[test]
fn it_works() {
    let mut engine = FakeEngine::new();
    assert_eq!(engine.perform(NDArray::new_call()).status, 0);
}

#[test]
fn ndarray_create_none() {
    let mut engine = FakeEngine::new();
    let mut arrays = Ledger::new();
    let array = empty(&mut engine, &mut arrays);
    assert_eq!(shape_of(&mut engine, &array), vec![]);
    assert_eq!(size_of(&mut engine, &array), 1);
}

#[test]
fn ndarray_builder() {
    let mut engine = FakeEngine::new();
    let mut arrays = Ledger::new();
    let op_map = registry(&mut engine);
    let a1 = create(
        &mut engine,
        &mut arrays,
        NDArrayBuilder::new().data(bits(&[1.0, 2.0])).shape(vec![2, 1]),
    );
    let a2 = create(
        &mut engine,
        &mut arrays,
        NDArray::builder().data(bits(&[2.0, 3.0])).shape(vec![2, 1]),
    );
    add_assign(&mut engine, &op_map, &a1, &a2);
    add_assign_scalar(&mut engine, &op_map, &a1, 0.5);
    engine.perform(a1.wait_to_read()).done().unwrap();
    assert_eq!(data_of(&mut engine, &a1), vec![3.5, 5.5]);
    assert_eq!(shape_of(&mut engine, &a1), vec![2, 1]);
}

#[test]
fn create_op_map() {
    let mut engine = FakeEngine::new();
    let op_map = registry(&mut engine);
    let _add = op_map.get_op_handle("_plus").unwrap();
}

#[test]
fn create_operator() {
    let mut engine = FakeEngine::new();
    let mut arrays = Ledger::new();
    let op_map = registry(&mut engine);
    let a1 = create(&mut engine, &mut arrays, NDArrayBuilder::new().data(bits(&[1.0])));
    let a3 = empty(&mut engine, &mut arrays);
    let call = operator(&mut engine, &op_map, "_plus_scalar")
        .push_input(&a1)
        .set_param_at(1, &0.1)
        .unwrap()
        .invoke_with(&a3)
        .unwrap();
    engine.perform(call).done().unwrap();
    println!("{:?}", size_of(&mut engine, &a3));
    assert_eq!(size_of(&mut engine, &a3), 1);
    assert_eq!(data_of(&mut engine, &a3), vec![1.1]);
}

#[test]
fn operator_create_operator() {
    let mut engine = FakeEngine::new();
    let mut arrays = Ledger::new();
    let op_map = registry(&mut engine);
    let a1 = create(&mut engine, &mut arrays, NDArrayBuilder::new().data(bits(&[1.0])));
    let a2 = create(&mut engine, &mut arrays, NDArrayBuilder::new().data(bits(&[1.0])));
    let a3 = empty(&mut engine, &mut arrays);
    let call = operator(&mut engine, &op_map, "_plus")
        .push_input(&a1)
        .push_input(&a2)
        .invoke_with(&a3)
        .unwrap();
    engine.perform(call).done().unwrap();
    println!("{:?}", size_of(&mut engine, &a3));
    assert_eq!(data_of(&mut engine, &a3), vec![2.0]);
}

#[test]
fn enter_and_exit() {
    let mut engine = FakeEngine::new();
    let mut arrays = Ledger::new();
    let op_map = registry(&mut engine);
    let x = create(&mut engine, &mut arrays, NDArray::builder().data(bits(&[1.0])));
    {
        let mut scope = record();
        enter(&mut engine, &mut scope);
        assert!(engine.recording && engine.training);
        add_assign_scalar(&mut engine, &op_map, &x, 1.0);
        exit(&mut engine, scope);
    }
    assert!(!engine.recording && !engine.training);
    assert_eq!(data_of(&mut engine, &x), vec![2.0]);
}

#[test]
fn release_is_issued_exactly_once() {
    let mut engine = FakeEngine::new();
    let mut arrays = Ledger::new();
    let a = empty(&mut engine, &mut arrays);
    let handle = a.handle();
    let b = a.share(&mut arrays).unwrap();
    let c = b.share(&mut arrays).unwrap();
    assert_eq!(arrays.holders(handle), 3);
    assert_eq!(engine.allocated, 1);
    assert!(matches!(a.release(&mut arrays), Ok(None)));
    assert!(matches!(c.release(&mut arrays), Ok(None)));
    assert_eq!(engine.released, 0);
    assert_eq!(arrays.holders(handle), 1);
    let last = b.release(&mut arrays).unwrap();
    assert_eq!(last, Some(EngineCall::FreeArray { handle }));
    released_reply(handle, engine.perform(last.unwrap())).unwrap();
    assert_eq!(engine.released, 1);
    assert_eq!(engine.allocated, engine.released);
    assert_eq!(arrays.holders(handle), 0);
    assert_eq!(arrays.release(handle).err(), Some(Error::StaleHandle { handle }));
}

#[test]
fn every_array_is_released_once() {
    let mut engine = FakeEngine::new();
    let mut arrays = Ledger::new();
    let mut live = Vec::new();
    for _ in 0..5 {
        let a = empty(&mut engine, &mut arrays);
        live.push(a.share(&mut arrays).unwrap());
        live.push(a);
    }
    assert_eq!(engine.allocated, 5);
    for a in live {
        drop_array(&mut engine, &mut arrays, a);
    }
    assert_eq!(engine.released, 5);
    assert!(engine.arrays.is_empty());
}

#[test]
fn failed_release_is_fatal() {
    let reply = EngineReply::failure(-1, "double free".to_string());
    assert_eq!(
        released_reply(7, reply),
        Err(Error::ReleaseFailed { handle: 7, message: "double free".to_string() })
    );
    assert_eq!(released_reply(7, EngineReply::success(EngineValue::Unit)), Ok(()));
}

#[test]
fn write_through_a_share_is_seen_through_the_first_value() {
    let mut engine = FakeEngine::new();
    let mut arrays = Ledger::new();
    let op_map = registry(&mut engine);
    let a = create(
        &mut engine,
        &mut arrays,
        NDArrayBuilder::new().data(bits(&[1.0, 2.0])).shape(vec![2, 1]),
    );
    let alias = a.share(&mut arrays).unwrap();
    assert_eq!(alias.handle(), a.handle());
    add_assign_scalar(&mut engine, &op_map, &alias, 1.0);
    assert_eq!(data_of(&mut engine, &a), vec![2.0, 3.0]);
    assert_eq!(data_of(&mut engine, &a), data_of(&mut engine, &alias));
    assert_eq!(shape_of(&mut engine, &a), shape_of(&mut engine, &alias));
    assert_eq!(engine.allocated, 1);
}

#[test]
fn nested_scopes_restore_the_flags() {
    let mut engine = FakeEngine::new();
    engine.recording = true;
    let mut outer = RecordingStateScope::new(Some(false), None);
    enter(&mut engine, &mut outer);
    assert!(!engine.recording);
    let mut inner = RecordingStateScope::new(Some(true), None);
    enter(&mut engine, &mut inner);
    assert!(engine.recording);
    exit(&mut engine, inner);
    assert!(!engine.recording);
    exit(&mut engine, outer);
    assert!(engine.recording);
}

#[test]
fn scope_restores_only_what_it_changed() {
    let mut engine = FakeEngine::new();
    engine.recording = true;
    engine.training = false;
    let mut scope = record();
    assert_eq!(
        scope.enter_calls(),
        vec![EngineCall::SetIsRecording { on: true }, EngineCall::SetIsTraining { on: true }]
    );
    enter(&mut engine, &mut scope);
    assert!(engine.recording && engine.training);
    assert_eq!(scope.exit(), vec![EngineCall::SetIsTraining { on: false }]);
}

#[test]
fn scope_constructors() {
    assert_eq!(
        pause().enter_calls(),
        vec![EngineCall::SetIsRecording { on: false }, EngineCall::SetIsTraining { on: false }]
    );
    assert_eq!(train_mode().enter_calls(), vec![EngineCall::SetIsTraining { on: true }]);
    assert_eq!(predict_mode().enter_calls(), vec![EngineCall::SetIsTraining { on: false }]);
    assert_eq!(RecordingStateScope::new(None, None).enter_calls(), vec![]);
    assert_eq!(record().exit(), vec![]);
}

#[test]
fn scope_enter_reports_failures() {
    let mut scope = record();
    let first = EngineReply::success(EngineValue::Int(1));
    assert_eq!(scope.enter(&vec![first.clone()]), Err(Error::UnexpectedReply));
    assert_eq!(scope.exit(), vec![]);
    let mut scope = pause();
    let bad = EngineReply::failure(3, "engine is gone".to_string());
    assert_eq!(
        scope.enter(&vec![first, bad]),
        Err(Error::Engine { message: "engine is gone".to_string() })
    );
    assert_eq!(scope.exit(), vec![EngineCall::SetIsRecording { on: true }]);
}

#[test]
fn flags_are_read_from_replies() {
    let mut engine = FakeEngine::new();
    engine.training = true;
    assert_eq!(is_recording(&engine.perform(is_recording_call())), Ok(false));
    assert_eq!(is_training(&engine.perform(is_training_call())), Ok(true));
}

#[test]
fn mixed_inputs_fail_before_any_call() {
    let mut engine = FakeEngine::new();
    let mut arrays = Ledger::new();
    let op_map = registry(&mut engine);
    let a = empty(&mut engine, &mut arrays);
    let b = empty(&mut engine, &mut arrays);
    let op = operator(&mut engine, &op_map, "_plus").set_input("lhs", &a).push_input(&b);
    let calls_before = engine.calls;
    assert_eq!(op.invoke(), Err(Error::InputCountMismatch { named: 1, inputs: 2 }));
    let op = operator(&mut engine, &op_map, "_plus").push_input(&b).set_input("lhs", &a);
    assert_eq!(
        op.create_symbol("node").err(),
        Some(Error::InputCountMismatch { named: 1, inputs: 2 })
    );
    assert_eq!(engine.calls, calls_before + 1);
}

#[test]
fn named_inputs_are_accepted_when_all_are_named() {
    let mut engine = FakeEngine::new();
    let mut arrays = Ledger::new();
    let op_map = registry(&mut engine);
    let a = empty(&mut engine, &mut arrays);
    let b = empty(&mut engine, &mut arrays);
    let creator = op_map.get_symbol_creator("_plus").unwrap();
    let call = operator(&mut engine, &op_map, "_plus")
        .set_input("lhs", &a)
        .set_input("rhs", &b)
        .invoke()
        .unwrap();
    assert_eq!(
        call,
        EngineCall::ImperativeInvoke {
            creator,
            inputs: vec![a.handle(), b.handle()],
            outputs: vec![],
            keys: vec![],
            values: vec![],
        }
    );
}

#[test]
fn lookups_are_stable_and_unknown_names_are_reported() {
    let mut engine = FakeEngine::new();
    let op_map = registry(&mut engine);
    let first = op_map.get_symbol_creator("_plus").unwrap();
    for _ in 0..3 {
        assert_eq!(op_map.get_symbol_creator("_plus"), Ok(first));
        assert_eq!(op_map.get_op_handle("_plus"), Ok(first));
    }
    assert_eq!(first, 1001);
    let err = op_map.get_op_handle("_no_such_op").unwrap_err();
    assert_eq!(err, Error::UnknownOperator { name: "_no_such_op".to_string() });
    assert!(err.message().contains("_no_such_op"));
    assert_eq!(err.message(), "unknown operator: _no_such_op");
    let err = op_map.get_symbol_creator("_no_such_op").unwrap_err();
    assert!(err.message().contains("_no_such_op"));
    assert!(matches!(
        Operator::new_call(&op_map, "_no_such_op"),
        Err(Error::UnknownOperator { .. })
    ));
}

#[test]
fn creators_come_before_op_handles() {
    let creators = vec![7];
    let infos = vec![EngineReply::success(EngineValue::Info {
        name: "both".to_string(),
        arg_names: vec![],
    })];
    let names = vec!["both".to_string(), "plain".to_string(), "plain".to_string()];
    let handles = vec![
        EngineReply::success(EngineValue::Handle(1)),
        EngineReply::success(EngineValue::Handle(2)),
        EngineReply::success(EngineValue::Handle(3)),
    ];
    let op_map = OpMap::new(&creators, &infos, &names, &handles).unwrap();
    assert_eq!(op_map.get_symbol_creator("both"), Ok(7));
    assert_eq!(op_map.get_op_handle("both"), Ok(1));
    assert_eq!(op_map.get_symbol_creator("plain"), Ok(3));
    assert_eq!(op_map.get_op_handle("plain"), Ok(3));
}

#[test]
fn registry_construction_reports_failures() {
    let names = vec!["a".to_string(), "b".to_string()];
    let failed = vec![
        EngineReply::success(EngineValue::Handle(1)),
        EngineReply::failure(-1, "boom".to_string()),
    ];
    assert_eq!(
        OpMap::new(&vec![], &vec![], &names, &failed).err(),
        Some(Error::Engine { message: "boom".to_string() })
    );
    let short = vec![EngineReply::success(EngineValue::Handle(1))];
    assert_eq!(OpMap::new(&vec![], &vec![], &names, &short).err(), Some(Error::UnexpectedReply));
    let wrong = vec![
        EngineReply::success(EngineValue::Handle(1)),
        EngineReply::success(EngineValue::Unit),
    ];
    assert_eq!(OpMap::new(&vec![], &vec![], &names, &wrong).err(), Some(Error::UnexpectedReply));
    let not_info = vec![EngineReply::success(EngineValue::Handle(1))];
    assert_eq!(
        OpMap::new(&vec![9], &not_info, &vec![], &vec![]).err(),
        Some(Error::UnexpectedReply)
    );
}

#[test]
fn round_trip_construction() {
    let mut engine = FakeEngine::new();
    let mut arrays = Ledger::new();
    let a = create(
        &mut engine,
        &mut arrays,
        NDArrayBuilder::new().data(bits(&[1.0, 2.0])).shape(vec![2, 1]),
    );
    assert_eq!(shape_of(&mut engine, &a), vec![2, 1]);
    assert_eq!(size_of(&mut engine, &a), 2);
    assert_eq!(data_of(&mut engine, &a), vec![1.0, 2.0]);
}

#[test]
fn builder_calls() {
    let builder = NDArrayBuilder::new();
    assert_eq!(
        builder.create(),
        EngineCall::Create { shape: vec![], device_type: 1, device_id: 0, delay_alloc: true }
    );
    let builder = NDArrayBuilder::new().data(bits(&[1.0, 2.0, 3.0]));
    assert_eq!(
        builder.create(),
        EngineCall::Create { shape: vec![3], device_type: 1, device_id: 0, delay_alloc: false }
    );
    let builder = NDArrayBuilder::new().shape(vec![4, 5]).context(gpu(1)).delay_alloc(false);
    assert_eq!(
        builder.create(),
        EngineCall::Create { shape: vec![4, 5], device_type: 2, device_id: 1, delay_alloc: false }
    );
    let mut arrays = Ledger::new();
    let reply = EngineReply::success(EngineValue::Handle(42));
    let (array, fill) = NDArrayBuilder::new()
        .data(bits(&[1.0]))
        .created(&mut arrays, &reply)
        .unwrap();
    assert_eq!(array.handle(), 42);
    assert_eq!(fill, Some(EngineCall::SyncCopyFromCpu { handle: 42, data: bits(&[1.0]) }));
    let reply = EngineReply::success(EngineValue::Handle(43));
    let (_, fill) = NDArrayBuilder::new().created(&mut arrays, &reply).unwrap();
    assert_eq!(fill, None);
}

#[test]
fn addition_is_an_invocation_of_plus() {
    let mut engine = FakeEngine::new();
    let mut arrays = Ledger::new();
    let op_map = registry(&mut engine);
    let a = create(&mut engine, &mut arrays, NDArrayBuilder::new().data(bits(&[1.0, 2.0])));
    let b = create(&mut engine, &mut arrays, NDArrayBuilder::new().data(bits(&[10.0, 20.0])));
    let out = empty(&mut engine, &mut arrays);
    let info = describe(&mut engine, &op_map, "_plus");
    let sugar = a.arith(Arith::Add, &b, &out, &op_map, info).unwrap();
    let by_hand = operator(&mut engine, &op_map, "_plus")
        .push_input(&a)
        .push_input(&b)
        .invoke_with(&out)
        .unwrap();
    assert_eq!(sugar, by_hand);
    assert_eq!(
        sugar,
        EngineCall::ImperativeInvoke {
            creator: op_map.get_symbol_creator("_plus").unwrap(),
            inputs: vec![a.handle(), b.handle()],
            outputs: vec![out.handle()],
            keys: vec![],
            values: vec![],
        }
    );
    engine.perform(sugar).done().unwrap();
    assert_eq!(data_of(&mut engine, &out), vec![11.0, 22.0]);
}

#[test]
fn add_assign_of_a_number_is_plus_scalar_in_place() {
    let mut engine = FakeEngine::new();
    let mut arrays = Ledger::new();
    let op_map = registry(&mut engine);
    let a = create(&mut engine, &mut arrays, NDArrayBuilder::new().data(bits(&[1.0])));
    let info = describe(&mut engine, &op_map, "_plus_scalar");
    let sugar = a.arith_scalar(Arith::Add, &1.0, &a, &op_map, info).unwrap();
    let info = describe(&mut engine, &op_map, "_plus_scalar");
    assert_eq!(a.arith_scalar_text(Arith::Add, "1", &a, &op_map, info), Ok(sugar.clone()));
    assert_eq!(
        sugar,
        EngineCall::ImperativeInvoke {
            creator: op_map.get_symbol_creator("_plus_scalar").unwrap(),
            inputs: vec![a.handle()],
            outputs: vec![a.handle()],
            keys: vec!["scalar".to_string()],
            values: vec!["1".to_string()],
        }
    );
    let allocated = engine.allocated;
    engine.perform(sugar).done().unwrap();
    assert_eq!(engine.allocated, allocated);
    assert_eq!(data_of(&mut engine, &a), vec![2.0]);
}

#[test]
fn operator_names() {
    assert_eq!(Arith::Add.name(), "_plus");
    assert_eq!(Arith::Sub.name(), "_minus");
    assert_eq!(Arith::Mul.name(), "_mul");
    assert_eq!(Arith::Div.name(), "_div");
    assert_eq!(Arith::Rem.name(), "_mod");
    assert_eq!(Arith::Add.scalar_name(), "_plus_scalar");
    assert_eq!(Arith::Rem.scalar_name(), "_mod_scalar");
    assert_eq!(Arith::Add.symbol_name(), "_Plus");
    assert_eq!(Arith::Sub.symbol_name(), "_Minus");
    assert_eq!(Arith::Mul.symbol_name(), "_Mul");
    assert_eq!(Arith::Div.symbol_name(), "_Div");
    assert_eq!(Arith::Rem.symbol_name(), "_Mod");
    assert_eq!(Arith::Div.symbol_scalar_name(), "_DivScalar");
}

#[test]
fn invoke_lets_the_engine_allocate() {
    let mut engine = FakeEngine::new();
    let mut arrays = Ledger::new();
    let op_map = registry(&mut engine);
    let a = create(&mut engine, &mut arrays, NDArrayBuilder::new().data(bits(&[6.0])));
    let b = create(&mut engine, &mut arrays, NDArrayBuilder::new().data(bits(&[4.0])));
    let call = operator(&mut engine, &op_map, "_minus")
        .push_input(&a)
        .push_input(&b)
        .invoke()
        .unwrap();
    assert!(matches!(&call, EngineCall::ImperativeInvoke { outputs, .. } if outputs.is_empty()));
    let reply = engine.perform(call);
    let outputs = Operator::outputs(&mut arrays, reply).unwrap();
    assert_eq!(outputs.len(), 1);
    assert_eq!(arrays.holders(outputs[0].handle()), 1);
    assert_eq!(data_of(&mut engine, &outputs[0]), vec![2.0]);
}

#[test]
fn outputs_stop_at_a_tracked_handle() {
    let mut arrays = Ledger::new();
    let reply = EngineReply::success(EngineValue::Handles(vec![5, 6, 5, 7]));
    assert_eq!(
        Operator::outputs(&mut arrays, reply).err(),
        Some(Error::HandleInUse { handle: 5 })
    );
    assert_eq!(arrays.holders(5), 1);
    assert_eq!(arrays.holders(6), 1);
    assert_eq!(arrays.holders(7), 0);
    let failed = EngineReply::failure(-1, "no".to_string());
    assert_eq!(
        Operator::outputs(&mut arrays, failed).err(),
        Some(Error::Engine { message: "no".to_string() })
    );
}

#[test]
fn output_handles_keep_what_was_supplied() {
    let reply = EngineReply::success(EngineValue::Handles(vec![9]));
    assert_eq!(Operator::output_handles(vec![3], reply.clone()), Ok(vec![3]));
    assert_eq!(Operator::output_handles(vec![], reply), Ok(vec![9]));
    let failed = EngineReply::failure(-1, "no".to_string());
    assert_eq!(
        Operator::output_handles(vec![3], failed),
        Err(Error::Engine { message: "no".to_string() })
    );
}

#[test]
fn params_are_kept_in_order_and_replaced_in_place() {
    let mut engine = FakeEngine::new();
    let op_map = registry(&mut engine);
    let call = operator(&mut engine, &op_map, "_plus_scalar")
        .set_param("scalar", &1)
        .set_param_text("axis", "0")
        .set_param("scalar", "2")
        .invoke()
        .unwrap();
    assert_eq!(
        call,
        EngineCall::ImperativeInvoke {
            creator: op_map.get_symbol_creator("_plus_scalar").unwrap(),
            inputs: vec![],
            outputs: vec![],
            keys: vec!["scalar".to_string(), "axis".to_string()],
            values: vec!["2".to_string(), "0".to_string()],
        }
    );
}

#[test]
fn positional_params() {
    let mut engine = FakeEngine::new();
    let mut arrays = Ledger::new();
    let op_map = registry(&mut engine);
    let a = empty(&mut engine, &mut arrays);
    let call = operator(&mut engine, &op_map, "_plus_scalar")
        .push_input(&a)
        .push_param("3")
        .unwrap()
        .invoke()
        .unwrap();
    assert!(matches!(
        &call,
        EngineCall::ImperativeInvoke { keys, values, .. }
            if keys == &vec!["scalar".to_string()] && values == &vec!["3".to_string()]
    ));
    let err = operator(&mut engine, &op_map, "_plus_scalar").set_param_at(2, "3").err();
    assert_eq!(err, Some(Error::ParamIndexOutOfRange { index: 2, args: 2 }));
    let err = operator(&mut engine, &op_map, "_plus_scalar").set_param_text_at(2, "3").err();
    assert_eq!(err, Some(Error::ParamIndexOutOfRange { index: 2, args: 2 }));
    let call = operator(&mut engine, &op_map, "_plus_scalar")
        .set_param_text_at(0, "7")
        .unwrap()
        .set_param_at(1, &2.5)
        .unwrap()
        .invoke()
        .unwrap();
    assert!(matches!(
        &call,
        EngineCall::ImperativeInvoke { keys, values, .. }
            if keys == &vec!["data".to_string(), "scalar".to_string()]
                && values == &vec!["7".to_string(), "2.5".to_string()]
    ));
}

#[test]
fn symbols_are_composed_in_two_steps() {
    let mut engine = FakeEngine::new();
    let mut symbols: Ledger<SymBlob> = Ledger::new();
    let op_map = registry(&mut engine);
    let x = Symbol::new(&mut symbols, &engine.perform(Symbol::new_call("x"))).unwrap();
    let y = Symbol::new(&mut symbols, &engine.perform(Symbol::new_call("y"))).unwrap();
    let info = describe(&mut engine, &op_map, "_Plus");
    let (create, rest) = x.arith(Arith::Add, &y, &op_map, info).unwrap();
    assert_eq!(
        create,
        EngineCall::CreateAtomicSymbol {
            creator: op_map.get_symbol_creator("_Plus").unwrap(),
            keys: vec![],
            values: vec![],
        }
    );
    let sum = Symbol::new(&mut symbols, &engine.perform(create)).unwrap();
    let compose = rest.compose(&sum);
    assert_eq!(
        compose,
        EngineCall::Compose {
            symbol: sum.handle(),
            name: None,
            keys: vec![],
            inputs: vec![x.handle(), y.handle()],
        }
    );
    engine.perform(compose).done().unwrap();
    let info = describe(&mut engine, &op_map, "_PlusScalar");
    let (create, rest) = x.arith_scalar(Arith::Add, &2, &op_map, info).unwrap();
    assert_eq!(
        create,
        EngineCall::CreateAtomicSymbol {
            creator: op_map.get_symbol_creator("_PlusScalar").unwrap(),
            keys: vec!["scalar".to_string()],
            values: vec!["2".to_string()],
        }
    );
    let plus_two = Symbol::new(&mut symbols, &engine.perform(create)).unwrap();
    engine.perform(rest.compose(&plus_two)).done().unwrap();
    let (create, rest) = operator(&mut engine, &op_map, "_Plus")
        .set_input("lhs", &x)
        .set_input("rhs", &y)
        .create_symbol("named_sum")
        .unwrap();
    let named_sum = Symbol::new(&mut symbols, &engine.perform(create)).unwrap();
    assert_eq!(
        rest.compose(&named_sum),
        EngineCall::Compose {
            symbol: named_sum.handle(),
            name: Some("named_sum".to_string()),
            keys: vec!["lhs".to_string(), "rhs".to_string()],
            inputs: vec![x.handle(), y.handle()],
        }
    );
    for symbol in [x, y, sum, plus_two, named_sum] {
        if let Some(call) = symbol.release(&mut symbols).unwrap() {
            engine.perform(call).done().unwrap();
        }
    }
    assert_eq!(engine.allocated, engine.released);
}

#[test]
fn symbol_shares_release_once() {
    let mut symbols: Ledger<SymBlob> = Ledger::new();
    let x = Symbol::from(&mut symbols, 11).unwrap();
    assert_eq!(Symbol::from(&mut symbols, 11).err(), Some(Error::HandleInUse { handle: 11 }));
    let y = x.share(&mut symbols).unwrap();
    assert_eq!(x.release(&mut symbols), Ok(None));
    assert_eq!(y.release(&mut symbols), Ok(Some(EngineCall::FreeSymbol { handle: 11 })));
    assert_eq!(SymBlob::new(4).handle(), 4);
    assert_eq!(SymBlob::new(4).release(), EngineCall::FreeSymbol { handle: 4 });
    assert_eq!(NDBlob::new(4).handle(), 4);
    assert_eq!(NDBlob::new(4).release(), EngineCall::FreeArray { handle: 4 });
}

#[test]
fn size_is_the_product_of_the_extents() {
    let dims = |d: Vec<u32>| EngineReply::success(EngineValue::Dims(d));
    assert_eq!(NDArray::size(dims(vec![2, 3, 4])), Ok(24));
    assert_eq!(NDArray::size(dims(vec![])), Ok(1));
    assert_eq!(NDArray::size(dims(vec![65536, 65535])), Ok(4294901760));
    assert_eq!(NDArray::size(dims(vec![65536, 65536])), Err(Error::SizeOverflow));
    assert_eq!(NDArray::size(dims(vec![4294967295, 4294967295, 0])), Ok(0));
    assert_eq!(NDArray::size(dims(vec![0, 4294967295, 4294967295])), Ok(0));
    assert_eq!(
        NDArray::size(EngineReply::success(EngineValue::Unit)),
        Err(Error::UnexpectedReply)
    );
}

#[test]
fn queries_read_their_replies() {
    let mut engine = FakeEngine::new();
    let mut arrays = Ledger::new();
    let a = create(
        &mut engine,
        &mut arrays,
        NDArrayBuilder::new().shape(vec![2, 2]).context(gpu(1)),
    );
    assert_eq!(NDArray::dtype(&engine.perform(a.dtype_call())), Ok(0));
    assert_eq!(NDArray::raw_dtype(&engine.perform(a.dtype_call())), Ok(0));
    let context = NDArray::context(engine.perform(a.context_call())).unwrap();
    assert_eq!(context.device_type(), DeviceType::GPU);
    assert_eq!(context.device_id(), 1);
    assert!(NDArray::needs_host_copy(&context));
    assert_eq!(a.wait_to_write(), EngineCall::WaitToWrite { handle: a.handle() });
    assert_eq!(a.wait_to_read(), EngineCall::WaitToRead { handle: a.handle() });
    assert_eq!(a.wait_all(), EngineCall::WaitAll);
    let stale = EngineCall::GetShape { handle: 999 };
    assert_eq!(
        NDArray::shape(engine.perform(stale)),
        Err(Error::Engine { message: "no such array".to_string() })
    );
    let odd = EngineReply::success(EngineValue::Device { device_type: 4, device_id: 0 });
    assert_eq!(NDArray::context(odd), Err(Error::UnknownDeviceType { code: 4 }));
}

#[test]
fn slices_are_fresh_arrays() {
    let mut engine = FakeEngine::new();
    let mut arrays = Ledger::new();
    let a = create(
        &mut engine,
        &mut arrays,
        NDArrayBuilder::new().data(bits(&[1.0, 2.0, 3.0, 4.0])).shape(vec![4, 1]),
    );
    assert_eq!(a.slice_call(1, 3), EngineCall::Slice { handle: a.handle(), begin: 1, end: 3 });
    let part = NDArray::slice(&mut arrays, &engine.perform(a.slice_call(1, 3))).unwrap();
    assert_ne!(part.handle(), a.handle());
    assert_eq!(shape_of(&mut engine, &part), vec![2, 1]);
    assert_eq!(data_of(&mut engine, &part), vec![2.0, 3.0]);
    let again = EngineReply::success(EngineValue::Handle(part.handle()));
    assert_eq!(
        NDArray::slice(&mut arrays, &again).err(),
        Some(Error::HandleInUse { handle: part.handle() })
    );
}

#[test]
fn copy_and_argmax_are_invocations() {
    let mut engine = FakeEngine::new();
    let mut arrays = Ledger::new();
    let op_map = registry(&mut engine);
    let a = create(&mut engine, &mut arrays, NDArrayBuilder::new().data(bits(&[5.0])));
    let b = empty(&mut engine, &mut arrays);
    let info = describe(&mut engine, &op_map, "copyto");
    let call = a.copy_to(&b, &op_map, info).unwrap();
    assert_eq!(
        call,
        EngineCall::ImperativeInvoke {
            creator: op_map.get_symbol_creator("copyto").unwrap(),
            inputs: vec![a.handle()],
            outputs: vec![b.handle()],
            keys: vec![],
            values: vec![],
        }
    );
    engine.perform(call).done().unwrap();
    assert_eq!(data_of(&mut engine, &b), vec![5.0]);
    let info = describe(&mut engine, &op_map, "argmax_channel");
    let call = a.argmax_channel(&b, &op_map, info).unwrap();
    assert!(matches!(
        &call,
        EngineCall::ImperativeInvoke { creator, .. }
            if *creator == op_map.get_symbol_creator("argmax_channel").unwrap()
    ));
    let failed = EngineReply::failure(-1, "no info".to_string());
    assert_eq!(
        a.copy_to(&b, &op_map, failed).err(),
        Some(Error::Engine { message: "no info".to_string() })
    );
}

#[test]
fn status_decides_calls() {
    let reply = EngineReply { status: 0, last_error: "stale".to_string(), value: EngineValue::Int(3) };
    assert_eq!(check_call(reply), Ok(EngineValue::Int(3)));
    let reply = EngineReply { status: 1, last_error: "bad".to_string(), value: EngineValue::Int(3) };
    assert_eq!(check_call(reply), Err(Error::Engine { message: "bad".to_string() }));
    assert_eq!(Error::Engine { message: "bad".to_string() }.message(), "bad");
    assert_eq!(Error::UnexpectedReply.message(), "unexpected reply from the engine");
    assert_eq!(
        Error::ReleaseFailed { handle: 1, message: "gone".to_string() }.message(),
        "release failed: gone"
    );
}

#[test]
fn ledger_refuses_what_it_does_not_track() {
    let mut arrays: Ledger<NDBlob> = Ledger::new();
    assert_eq!(arrays.share(3), Err(Error::StaleHandle { handle: 3 }));
    assert!(matches!(arrays.release(3), Err(Error::StaleHandle { handle: 3 })));
    assert_eq!(arrays.adopt(NDBlob::new(3)), Ok(()));
    assert_eq!(arrays.adopt(NDBlob::new(3)), Err(Error::HandleInUse { handle: 3 }));
    assert_eq!(NDArray::from(&mut arrays, 3).err(), Some(Error::HandleInUse { handle: 3 }));
    assert_eq!(arrays.holders(3), 1);
}
