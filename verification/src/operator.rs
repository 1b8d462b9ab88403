//! The builder of one operator invocation.
//!
//! An [`Operator`] collects inputs and parameters for one operator of the
//! engine. It ends in one of two ways, each of which consumes it: as an
//! imperative invocation, which computes at once, or as a graph node.
use vstd::prelude::*;
use vstd::string::{to_string_from_display_ensures, StringExecFns};
use crate::base::{clone_texts, texts, CallView, EngineCall, EngineReply, Error};
use crate::dict::{put_keys, put_values, Dict};
use crate::ndarray::{handles_of, wrap_all, NDArray, NDBlob};
use crate::op_map::{symbol_creator, OpMap, Tables};
use crate::shared::{GetHandle, Ledger};

verus! {

/// What an [`Operator`] has collected.
pub struct OperatorView {
    /// The reference under which the engine knows the operator.
    pub creator: usize,
    /// The handles of the inputs, in the order in which they were given.
    pub inputs: Seq<usize>,
    /// The names of the inputs that were given by name, in order.
    pub input_keys: Seq<Seq<char>>,
    /// The names of the parameters, in the order in which they first came.
    pub param_keys: Seq<Seq<char>>,
    /// The values of the parameters as text, each at the place of its name.
    pub param_values: Seq<Seq<char>>,
    /// The names of the operator's arguments, by position.
    pub arg_names: Seq<Seq<char>>,
}

/// A builder that has collected nothing yet.
pub open spec fn fresh(creator: usize, arg_names: Seq<Seq<char>>) -> OperatorView {
    OperatorView {
        creator,
        inputs: Seq::empty(),
        input_keys: Seq::empty(),
        param_keys: Seq::empty(),
        param_values: Seq::empty(),
        arg_names,
    }
}

/// The builder that `operator_name` and the engine's description `info` of
/// its operator give, if the registry knows the name and the description
/// is one.
pub open spec fn spec_new(tables: Tables, operator_name: Seq<char>, info: EngineReply) -> Option<
    OperatorView,
> {
    match (symbol_creator(tables, operator_name), info.spec_arg_names()) {
        (Some(creator), Ok(arg_names)) => Some(fresh(creator, texts(arg_names@))),
        _ => None,
    }
}

/// Whether `e` is the error of a builder that cannot be made from
/// `operator_name` and `info`: the name is unknown, or else the description
/// is none.
pub open spec fn new_fails_with(
    tables: Tables,
    operator_name: Seq<char>,
    info: EngineReply,
    e: Error,
) -> bool {
    match symbol_creator(tables, operator_name) {
        None => e.is_unknown_operator(operator_name),
        Some(_) => info.spec_arg_names() == Err::<Vec<String>, Error>(e),
    }
}

/// The builder after an input was given by position.
pub open spec fn pushed(op: OperatorView, handle: usize) -> OperatorView {
    OperatorView { inputs: op.inputs.push(handle), ..op }
}

/// The builder after an input was given by name.
pub open spec fn named(op: OperatorView, name: Seq<char>, handle: usize) -> OperatorView {
    OperatorView { inputs: op.inputs.push(handle), input_keys: op.input_keys.push(name), ..op }
}

/// The builder after a parameter was set: a parameter that was set before
/// gets the new value.
pub open spec fn with_param(op: OperatorView, name: Seq<char>, value: Seq<char>) -> OperatorView {
    OperatorView {
        param_keys: put_keys(op.param_keys, name),
        param_values: put_values(op.param_keys, op.param_values, name, value),
        ..op
    }
}

/// The builder after a parameter was set by the position of its name among
/// the operator's arguments; no builder where there is no such position.
pub open spec fn with_param_at(op: OperatorView, pos: usize, value: Seq<char>) -> Result<
    OperatorView,
    Error,
> {
    if pos < op.arg_names.len() {
        Ok(with_param(op, op.arg_names[pos as int], value))
    } else {
        Err(Error::ParamIndexOutOfRange { index: pos, args: op.arg_names.len() as usize })
    }
}

/// Inputs are given either all by name or all by position.
pub open spec fn inputs_consistent(op: OperatorView) -> bool {
    op.input_keys.len() == 0 || op.input_keys.len() == op.inputs.len()
}

/// The error of a builder whose inputs are given partly by name.
pub open spec fn count_mismatch(op: OperatorView) -> Error {
    Error::InputCountMismatch {
        named: op.input_keys.len() as usize,
        inputs: op.inputs.len() as usize,
    }
}

/// The imperative invocation that the builder amounts to, with the output
/// handles `outputs`: none, for the engine to allocate the results, or the
/// arrays to write into.
pub open spec fn spec_invoke(op: OperatorView, outputs: Seq<usize>) -> Result<CallView, Error> {
    if !inputs_consistent(op) {
        Err(count_mismatch(op))
    } else {
        Ok(
            CallView::ImperativeInvoke {
                creator: op.creator,
                inputs: op.inputs,
                outputs,
                keys: op.param_keys,
                values: op.param_values,
            },
        )
    }
}

/// What is left to do once the node of a builder's operator is made: the
/// inputs that have to be bound to it, and the name it is to have.
pub struct CompositionView {
    /// The name of the node; `None` leaves the node without a name.
    pub name: Option<Seq<char>>,
    /// The names of the inputs that were given by name, in order.
    pub keys: Seq<Seq<char>>,
    /// The handles of the inputs, in order.
    pub inputs: Seq<usize>,
}

/// The first step towards a graph node, and what is left for the second:
/// the call that makes the node of the builder's operator with the
/// builder's parameters, and the inputs to bind. An empty name stands for
/// no name.
pub open spec fn spec_create_symbol(op: OperatorView, name: Seq<char>) -> Result<
    (CallView, CompositionView),
    Error,
> {
    if !inputs_consistent(op) {
        Err(count_mismatch(op))
    } else {
        Ok(
            (
                CallView::CreateAtomicSymbol {
                    creator: op.creator,
                    keys: op.param_keys,
                    values: op.param_values,
                },
                CompositionView {
                    name: if name.len() == 0 {
                        None
                    } else {
                        Some(name)
                    },
                    keys: op.input_keys,
                    inputs: op.inputs,
                },
            ),
        )
    }
}

/// The second step towards a graph node: the call that binds the inputs
/// to the node `symbol`.
pub open spec fn spec_compose(rest: CompositionView, symbol: usize) -> CallView {
    CallView::Compose { symbol, name: rest.name, keys: rest.keys, inputs: rest.inputs }
}

/// The output handles of an invocation: the ones that were supplied, where
/// any were, else the ones that the engine allocated.
pub open spec fn spec_output_handles(supplied: Vec<usize>, reply: EngineReply) -> Result<
    Vec<usize>,
    Error,
> {
    if supplied@.len() > 0 {
        match reply.spec_done() {
            Err(e) => Err(e),
            Ok(_) => Ok(supplied),
        }
    } else {
        reply.spec_handles()
    }
}

/// The five arithmetic operations that arrays and symbols offer.
#[derive(Debug, Copy, Clone, PartialEq, Eq, Structural)]
pub enum Arith {
    Add,
    Sub,
    Mul,
    Div,
    Rem,
}

impl Arith {
    /// The engine's name of the operation on two arrays.
    pub open spec fn spec_name(self) -> Seq<char> {
        match self {
            Arith::Add => "_plus"@,
            Arith::Sub => "_minus"@,
            Arith::Mul => "_mul"@,
            Arith::Div => "_div"@,
            Arith::Rem => "_mod"@,
        }
    }

    /// The engine's name of the operation on an array and a number.
    pub open spec fn spec_scalar_name(self) -> Seq<char> {
        self.spec_name() + "_scalar"@
    }

    /// The engine's name of the operation on two symbols.
    pub open spec fn spec_symbol_name(self) -> Seq<char> {
        match self {
            Arith::Add => "_Plus"@,
            Arith::Sub => "_Minus"@,
            Arith::Mul => "_Mul"@,
            Arith::Div => "_Div"@,
            Arith::Rem => "_Mod"@,
        }
    }

    /// The engine's name of the operation on a symbol and a number.
    pub open spec fn spec_symbol_scalar_name(self) -> Seq<char> {
        self.spec_symbol_name() + "Scalar"@
    }

    /// The engine's name of the operation on two arrays.
    pub fn name(self) -> (name: &'static str)
        ensures
            name@ == self.spec_name(),
    {
        match self {
            Arith::Add => "_plus",
            Arith::Sub => "_minus",
            Arith::Mul => "_mul",
            Arith::Div => "_div",
            Arith::Rem => "_mod",
        }
    }

    /// The engine's name of the operation on an array and a number.
    pub fn scalar_name(self) -> (name: String)
        ensures
            name@ == self.spec_scalar_name(),
    {
        String::from_str(self.name()).concat("_scalar")
    }

    /// The engine's name of the operation on two symbols.
    pub fn symbol_name(self) -> (name: &'static str)
        ensures
            name@ == self.spec_symbol_name(),
    {
        match self {
            Arith::Add => "_Plus",
            Arith::Sub => "_Minus",
            Arith::Mul => "_Mul",
            Arith::Div => "_Div",
            Arith::Rem => "_Mod",
        }
    }

    /// The engine's name of the operation on a symbol and a number.
    pub fn symbol_scalar_name(self) -> (name: String)
        ensures
            name@ == self.spec_symbol_scalar_name(),
    {
        String::from_str(self.symbol_name()).concat("Scalar")
    }
}

/// What building an operator by name and then finishing it comes to:
/// `finish` says what the fresh builder is turned into. Where no builder
/// can be made, `e` is the error of that.
pub open spec fn built_as(
    tables: Tables,
    operator_name: Seq<char>,
    info: EngineReply,
    finish: spec_fn(OperatorView) -> Result<CallView, Error>,
    outcome: Result<CallView, Error>,
) -> bool {
    match spec_new(tables, operator_name, info) {
        Some(op) => outcome == finish(op),
        None => outcome matches Err(e) && new_fails_with(tables, operator_name, info, e),
    }
}

/// What building an operator by name and then turning it into a graph
/// node comes to: `finish` says what the fresh builder is turned into.
/// Where no builder can be made, `e` is the error of that.
pub open spec fn node_built_as(
    tables: Tables,
    operator_name: Seq<char>,
    info: EngineReply,
    finish: spec_fn(OperatorView) -> Result<(CallView, CompositionView), Error>,
    outcome: Result<(CallView, CompositionView), Error>,
) -> bool {
    match spec_new(tables, operator_name, info) {
        Some(op) => outcome == finish(op),
        None => outcome matches Err(e) && new_fails_with(tables, operator_name, info, e),
    }
}

/// The view of an outcome: of a call and the rest of the work, their
/// contents.
pub open spec fn node_view(outcome: Result<(EngineCall, Composition), Error>) -> Result<
    (CallView, CompositionView),
    Error,
> {
    match outcome {
        Ok((call, rest)) => Ok((call@, rest@)),
        Err(e) => Err(e),
    }
}

/// The view of an outcome: of a call, its content.
pub open spec fn call_view(outcome: Result<EngineCall, Error>) -> Result<CallView, Error> {
    match outcome {
        Ok(call) => Ok(call@),
        Err(e) => Err(e),
    }
}

/// The texts of the values after a put are the put of the texts.
pub proof fn lemma_put_texts(keys: Seq<Seq<char>>, values: Seq<String>, name: Seq<char>, value: String)
    requires
        keys.len() == values.len(),
    ensures
        texts(put_values(keys, values, name, value)) == put_values(
            keys,
            texts(values),
            name,
            value@,
        ),
{
    assert(texts(put_values(keys, values, name, value)) =~= put_values(
        keys,
        texts(values),
        name,
        value@,
    ));
}

/// The builder of one operator invocation.
pub struct Operator {
    params: Dict<String>,
    inputs: Vec<usize>,
    input_keys: Vec<String>,
    arg_names: Vec<String>,
    handle: usize,
}

impl View for Operator {
    type V = OperatorView;

    closed spec fn view(&self) -> OperatorView {
        OperatorView {
            creator: self.handle,
            inputs: self.inputs@,
            input_keys: texts(self.input_keys@),
            param_keys: self.params.keys(),
            param_values: texts(self.params.values()),
            arg_names: texts(self.arg_names@),
        }
    }
}

impl Operator {
    /// Every parameter has one value, and no input has more than one name.
    pub closed spec fn wf(&self) -> bool {
        &&& self.params.wf()
        &&& self.input_keys@.len() <= self.inputs@.len()
    }

    /// What holds of the view of every well-formed builder.
    pub proof fn lemma_wf(&self)
        requires
            self.wf(),
        ensures
            self@.param_keys.len() == self@.param_values.len(),
            self@.param_keys.no_duplicates(),
            self@.input_keys.len() <= self@.inputs.len(),
    {
        self.params.lemma_wf();
    }

    /// The call that describes the operator `operator_name`, for its
    /// argument names. A name that the registry does not know is an error
    /// that carries the name, and there is nothing to call.
    pub fn new_call(op_map: &OpMap, operator_name: &str) -> (outcome: Result<EngineCall, Error>)
        requires
            op_map.wf(),
        ensures
            match outcome {
                Ok(call) => symbol_creator(op_map@, operator_name@) matches Some(creator) && call@
                    == (CallView::GetAtomicSymbolInfo { creator }),
                Err(e) => symbol_creator(op_map@, operator_name@) == None::<usize>
                    && e.is_unknown_operator(operator_name@),
            },
    {
        match op_map.get_symbol_creator(operator_name) {
            Err(e) => Err(e),
            Ok(creator) => Ok(EngineCall::GetAtomicSymbolInfo { creator }),
        }
    }

    /// A builder for the operator `operator_name` that has collected
    /// nothing yet. `info` is the engine's description of the operator.
    pub fn new(op_map: &OpMap, operator_name: &str, info: EngineReply) -> (outcome: Result<
        Operator,
        Error,
    >)
        requires
            op_map.wf(),
        ensures
            match outcome {
                Ok(op) => op.wf() && spec_new(op_map@, operator_name@, info) == Some(op@),
                Err(e) => spec_new(op_map@, operator_name@, info) == None::<OperatorView>
                    && new_fails_with(op_map@, operator_name@, info, e),
            },
    {
        let handle = match op_map.get_symbol_creator(operator_name) {
            Err(e) => { return Err(e); },
            Ok(creator) => creator,
        };
        let arg_names = match info.arg_names() {
            Err(e) => { return Err(e); },
            Ok(arg_names) => arg_names,
        };
        let op = Operator {
            params: Dict::new(),
            inputs: Vec::new(),
            input_keys: Vec::new(),
            arg_names,
            handle,
        };
        assert(op@.input_keys =~= Seq::<Seq<char>>::empty());
        assert(op@.param_values =~= Seq::<Seq<char>>::empty());
        Ok(op)
    }

    /// Gives an input by position.
    pub fn push_input<V: GetHandle>(self, value: &V) -> (op: Operator)
        requires
            self.wf(),
        ensures
            op.wf(),
            op@ == pushed(self@, value.spec_handle()),
    {
        let mut op = self;
        op.inputs.push(value.handle());
        op
    }

    /// Gives an input by name.
    pub fn set_input<V: GetHandle>(self, name: &str, value: &V) -> (op: Operator)
        requires
            self.wf(),
        ensures
            op.wf(),
            op@ == named(self@, name@, value.spec_handle()),
    {
        let mut op = self;
        op.input_keys.push(name.to_owned());
        op.inputs.push(value.handle());
        assert(texts(op.input_keys@) =~= texts(self.input_keys@).push(name@));
        op
    }

    /// Sets the parameter `name` to `value`. The engine takes parameters as
    /// text: what is kept is the text that displaying the value gives.
    pub fn set_param<T: core::fmt::Display + ?Sized>(self, name: &str, value: &T) -> (op: Operator)
        requires
            self.wf(),
        ensures
            op.wf(),
            exists|text: String| #[trigger]
                to_string_from_display_ensures::<T>(value, text) && op@ == with_param(
                    self@,
                    name@,
                    text@,
                ),
    {
        let text = value.to_string();
        self.set_param_text(name, text.as_str())
    }

    /// Sets the parameter `name` to the value that reads `text`.
    pub fn set_param_text(self, name: &str, text: &str) -> (op: Operator)
        requires
            self.wf(),
        ensures
            op.wf(),
            op@ == with_param(self@, name@, text@),
    {
        let mut op = self;
        let kept = text.to_owned();
        proof {
            self.params.lemma_wf();
            lemma_put_texts(self.params.keys(), self.params.values(), name@, kept);
        }
        op.params.insert(name.to_owned(), kept);
        op
    }

    /// Sets the parameter that stands at place `pos` among the operator's
    /// arguments to `value`, as text.
    pub fn set_param_at<T: core::fmt::Display + ?Sized>(self, pos: usize, value: &T) -> (outcome:
        Result<Operator, Error>)
        requires
            self.wf(),
        ensures
            match outcome {
                Ok(op) => op.wf() && exists|text: String| #[trigger]
                    to_string_from_display_ensures::<T>(value, text) && with_param_at(
                        self@,
                        pos,
                        text@,
                    ) == Ok::<OperatorView, Error>(op@),
                Err(e) => pos >= self@.arg_names.len() && e == (Error::ParamIndexOutOfRange {
                    index: pos,
                    args: self@.arg_names.len() as usize,
                }),
            },
    {
        let text = value.to_string();
        self.set_param_text_at(pos, text.as_str())
    }

    /// Sets the parameter that stands at place `pos` among the operator's
    /// arguments to the value that reads `text`.
    pub fn set_param_text_at(self, pos: usize, text: &str) -> (outcome: Result<Operator, Error>)
        requires
            self.wf(),
        ensures
            match outcome {
                Ok(op) => op.wf() && with_param_at(self@, pos, text@) == Ok::<OperatorView, Error>(
                    op@,
                ),
                Err(e) => with_param_at(self@, pos, text@) == Err::<OperatorView, Error>(e),
            },
    {
        if pos < self.arg_names.len() {
            let name = self.arg_names[pos].clone();
            Ok(self.set_param_text(name.as_str(), text))
        } else {
            Err(Error::ParamIndexOutOfRange { index: pos, args: self.arg_names.len() })
        }
    }

    /// Sets the parameter that stands right after the inputs given so far.
    pub fn push_param<T: core::fmt::Display + ?Sized>(self, value: &T) -> (outcome: Result<
        Operator,
        Error,
    >)
        requires
            self.wf(),
        ensures
            match outcome {
                Ok(op) => op.wf() && exists|text: String| #[trigger]
                    to_string_from_display_ensures::<T>(value, text) && with_param_at(
                        self@,
                        self@.inputs.len() as usize,
                        text@,
                    ) == Ok::<OperatorView, Error>(op@),
                Err(e) => self@.inputs.len() >= self@.arg_names.len() && e == (
                Error::ParamIndexOutOfRange {
                    index: self@.inputs.len() as usize,
                    args: self@.arg_names.len() as usize,
                }),
            },
    {
        let pos = self.inputs.len();
        self.set_param_at(pos, value)
    }

    /// The imperative invocation with the given output handles. Inputs
    /// that are given partly by name are refused before anything is called.
    pub fn invoke_with_handles(self, output_handles: &Vec<usize>) -> (outcome: Result<
        EngineCall,
        Error,
    >)
        requires
            self.wf(),
        ensures
            match outcome {
                Ok(call) => spec_invoke(self@, output_handles@) == Ok::<CallView, Error>(call@),
                Err(e) => spec_invoke(self@, output_handles@) == Err::<CallView, Error>(e),
            },
    {
        if self.input_keys.len() > 0 && self.input_keys.len() != self.inputs.len() {
            return Err(
                Error::InputCountMismatch {
                    named: self.input_keys.len(),
                    inputs: self.inputs.len(),
                },
            );
        }
        let keys = clone_texts(self.params.names());
        let values = clone_texts(self.params.entries());
        Ok(
            EngineCall::ImperativeInvoke {
                creator: self.handle,
                inputs: self.inputs,
                outputs: output_handles.clone(),
                keys,
                values,
            },
        )
    }

    /// The imperative invocation that writes its result into `output`: the
    /// engine is handed that one output and is not asked to allocate.
    pub fn invoke_with(self, output: &NDArray) -> (outcome: Result<EngineCall, Error>)
        requires
            self.wf(),
        ensures
            match outcome {
                Ok(call) => spec_invoke(self@, seq![output.spec_handle()]) == Ok::<CallView, Error>(
                    call@,
                ),
                Err(e) => spec_invoke(self@, seq![output.spec_handle()]) == Err::<CallView, Error>(
                    e,
                ),
            },
    {
        let mut output_handles: Vec<usize> = Vec::new();
        output_handles.push(output.handle());
        assert(output_handles@ =~= seq![output.spec_handle()]);
        self.invoke_with_handles(&output_handles)
    }

    /// The imperative invocation that lets the engine allocate the results.
    pub fn invoke(self) -> (outcome: Result<EngineCall, Error>)
        requires
            self.wf(),
        ensures
            match outcome {
                Ok(call) => spec_invoke(self@, Seq::empty()) == Ok::<CallView, Error>(call@),
                Err(e) => spec_invoke(self@, Seq::empty()) == Err::<CallView, Error>(e),
            },
    {
        let output_handles: Vec<usize> = Vec::new();
        self.invoke_with_handles(&output_handles)
    }

    /// The output handles of an invocation, from its reply: the supplied
    /// ones where any were supplied, else the ones the engine allocated.
    pub fn output_handles(supplied: Vec<usize>, reply: EngineReply) -> (outcome: Result<
        Vec<usize>,
        Error,
    >)
        ensures
            outcome == spec_output_handles(supplied, reply),
    {
        if supplied.len() > 0 {
            match reply.done() {
                Err(e) => Err(e),
                Ok(()) => Ok(supplied),
            }
        } else {
            reply.handles()
        }
    }

    /// Wraps the results of an invocation that let the engine allocate:
    /// each handle of the reply becomes a fresh array, in order.
    pub fn outputs(arrays: &mut Ledger<NDBlob>, reply: EngineReply) -> (outcome: Result<
        Vec<NDArray>,
        Error,
    >)
        requires
            old(arrays).wf(),
        ensures
            final(arrays).wf(),
            match reply.spec_handles() {
                Err(e) => outcome == Err::<Vec<NDArray>, Error>(e) && final(arrays)@ == old(
                    arrays,
                )@,
                Ok(handles) => final(arrays)@ == wrap_all(old(arrays)@, handles@, 0).0
                    && match outcome {
                    Ok(results) => wrap_all(old(arrays)@, handles@, 0).1 == None::<usize>
                        && handles_of(results@) == handles@,
                    Err(e) => wrap_all(old(arrays)@, handles@, 0).1 matches Some(clash) && e == (
                    Error::HandleInUse { handle: clash }),
                },
            },
    {
        match reply.handles() {
            Err(e) => Err(e),
            Ok(handles) => NDArray::from_handles(arrays, &handles),
        }
    }

    /// The first step towards the graph node `name` of the operator: the
    /// call that makes the node, with the parameters, and the rest of the
    /// work, which binds the inputs to the node once the engine has made it.
    /// An empty `name` leaves the node without a name. Inputs that are given
    /// partly by name are refused before anything is called.
    pub fn create_symbol(self, name: &str) -> (outcome: Result<(EngineCall, Composition), Error>)
        requires
            self.wf(),
        ensures
            match outcome {
                Ok((call, rest)) => spec_create_symbol(self@, name@) == Ok::<
                    (CallView, CompositionView),
                    Error,
                >((call@, rest@)),
                Err(e) => spec_create_symbol(self@, name@) == Err::<
                    (CallView, CompositionView),
                    Error,
                >(e),
            },
    {
        if self.input_keys.len() > 0 && self.input_keys.len() != self.inputs.len() {
            return Err(
                Error::InputCountMismatch {
                    named: self.input_keys.len(),
                    inputs: self.inputs.len(),
                },
            );
        }
        let keys = clone_texts(self.params.names());
        let values = clone_texts(self.params.entries());
        let node_name = if name.is_empty() {
            None
        } else {
            Some(name.to_owned())
        };
        Ok(
            (
                EngineCall::CreateAtomicSymbol { creator: self.handle, keys, values },
                Composition { name: node_name, input_keys: self.input_keys, inputs: self.inputs },
            ),
        )
    }
}

/// The second step towards a graph node: the inputs that are still to be
/// bound to the node, and the name the node is to have.
pub struct Composition {
    name: Option<String>,
    input_keys: Vec<String>,
    inputs: Vec<usize>,
}

impl View for Composition {
    type V = CompositionView;

    closed spec fn view(&self) -> CompositionView {
        CompositionView {
            name: match self.name {
                Some(n) => Some(n@),
                None => None,
            },
            keys: texts(self.input_keys@),
            inputs: self.inputs@,
        }
    }
}

impl Composition {
    /// The call that binds the inputs, by position or by name, to the node
    /// `symbol` that the first step made.
    pub fn compose<V: GetHandle>(self, symbol: &V) -> (call: EngineCall)
        ensures
            call@ == spec_compose(self@, symbol.spec_handle()),
    {
        EngineCall::Compose {
            symbol: symbol.handle(),
            name: self.name,
            keys: self.input_keys,
            inputs: self.inputs,
        }
    }
}

/// Mixing one input by name with one by position, in either order, leaves
/// a builder whose inputs are not consistent, whatever it held before: such
/// a builder is refused before anything is called.
pub proof fn lemma_mixed_inputs_refused(
    op: OperatorView,
    name: Seq<char>,
    by_name: usize,
    by_position: usize,
    outputs: Seq<usize>,
)
    requires
        op.input_keys.len() <= op.inputs.len(),
    ensures
        !inputs_consistent(pushed(named(op, name, by_name), by_position)),
        !inputs_consistent(named(pushed(op, by_position), name, by_name)),
        spec_invoke(pushed(named(op, name, by_name), by_position), outputs) is Err,
        spec_invoke(named(pushed(op, by_position), name, by_name), outputs) is Err,
        forall|node: Seq<char>|
            #[trigger] spec_create_symbol(pushed(named(op, name, by_name), by_position), node)
                is Err,
        forall|node: Seq<char>|
            #[trigger] spec_create_symbol(named(pushed(op, by_position), name, by_name), node)
                is Err,
{
}

/// Inputs that are all given by position, or all by name, are accepted.
pub proof fn lemma_uniform_inputs_accepted(op: OperatorView, outputs: Seq<usize>)
    requires
        op.input_keys.len() == 0 || op.input_keys.len() == op.inputs.len(),
    ensures
        spec_invoke(op, outputs) is Ok,
        forall|node: Seq<char>| #[trigger] spec_create_symbol(op, node) is Ok,
{
}

} // verus!
