//! The engine protocol: calls, replies, and the errors of the library.
use vstd::prelude::*;
use vstd::string::StringExecFns;

verus! {

/// What went wrong in an operation of this library.
#[derive(Debug, Clone, PartialEq, Eq)]
pub enum Error {
    /// An engine call reported a non-zero status; `message` is the engine's
    /// last-error text.
    Engine { message: String },
    /// The release call for `handle` failed. The engine's bookkeeping can no
    /// longer be relied on.
    ReleaseFailed { handle: usize, message: String },
    /// No operator of this name is registered.
    UnknownOperator { name: String },
    /// Some inputs were given by name, but not all of them.
    InputCountMismatch { named: usize, inputs: usize },
    /// The engine reported a device kind that this library does not know.
    UnknownDeviceType { code: i32 },
    /// A positional parameter index beyond the operator's argument names.
    ParamIndexOutOfRange { index: usize, args: usize },
    /// The engine's reply did not carry the kind of value the call asks for.
    UnexpectedReply,
    /// The handle is not tracked by the ledger.
    StaleHandle { handle: usize },
    /// The handle is already tracked by the ledger.
    HandleInUse { handle: usize },
    /// The share count of the handle cannot grow further.
    ShareLimit { handle: usize },
    /// The number of elements does not fit the engine's size type.
    SizeOverflow,
}

impl Error {
    /// The text of the error. An engine failure reads as the engine's own
    /// message; an unknown operator is named in full.
    pub open spec fn spec_message(&self) -> Seq<char> {
        match self {
            Error::Engine { message } => message@,
            Error::ReleaseFailed { handle: _, message } => "release failed: "@ + message@,
            Error::UnknownOperator { name } => "unknown operator: "@ + name@,
            Error::InputCountMismatch { named: _, inputs: _ } => "named inputs do not cover all inputs"@,
            Error::UnknownDeviceType { code: _ } => "unknown device type"@,
            Error::ParamIndexOutOfRange { index: _, args: _ } => "parameter index out of range"@,
            Error::UnexpectedReply => "unexpected reply from the engine"@,
            Error::StaleHandle { handle: _ } => "handle is not tracked"@,
            Error::HandleInUse { handle: _ } => "handle is already tracked"@,
            Error::ShareLimit { handle: _ } => "too many shares of one handle"@,
            Error::SizeOverflow => "element count overflows"@,
        }
    }

    /// Whether this is the error that no operator is called `name`.
    pub open spec fn is_unknown_operator(&self, name: Seq<char>) -> bool {
        match self {
            Error::UnknownOperator { name: unknown } => unknown@ == name,
            _ => false,
        }
    }

    /// Renders the error as text.
    pub fn message(&self) -> (text: String)
        ensures
            text@ == self.spec_message(),
    {
        match self {
            Error::Engine { message } => message.clone(),
            Error::ReleaseFailed { handle: _, message } => String::from_str(
                "release failed: ",
            ).concat(message.as_str()),
            Error::UnknownOperator { name } => String::from_str("unknown operator: ").concat(
                name.as_str(),
            ),
            Error::InputCountMismatch { named: _, inputs: _ } => String::from_str(
                "named inputs do not cover all inputs",
            ),
            Error::UnknownDeviceType { code: _ } => String::from_str("unknown device type"),
            Error::ParamIndexOutOfRange { index: _, args: _ } => String::from_str(
                "parameter index out of range",
            ),
            Error::UnexpectedReply => String::from_str("unexpected reply from the engine"),
            Error::StaleHandle { handle: _ } => String::from_str("handle is not tracked"),
            Error::HandleInUse { handle: _ } => String::from_str("handle is already tracked"),
            Error::ShareLimit { handle: _ } => String::from_str("too many shares of one handle"),
            Error::SizeOverflow => String::from_str("element count overflows"),
        }
    }
}

/// The texts of a list of strings.
pub open spec fn texts(names: Seq<String>) -> Seq<Seq<char>> {
    names.map_values(|s: String| s@)
}

/// Copies a list of strings.
pub fn clone_texts(names: &Vec<String>) -> (copy: Vec<String>)
    ensures
        texts(copy@) == texts(names@),
{
    let mut copy: Vec<String> = Vec::new();
    let mut i: usize = 0;
    while i < names.len()
        invariant
            i <= names@.len(),
            copy@.len() == i,
            forall|j: int| 0 <= j < i ==> copy@[j]@ == names@[j]@,
        decreases names@.len() - i,
    {
        copy.push(names[i].clone());
        i += 1;
    }
    assert(texts(copy@) =~= texts(names@));
    copy
}

/// One call into the engine, as plain data. Handles and creator references
/// are the engine's pointer-sized tokens.
#[derive(Debug, Clone, PartialEq, Eq)]
#[allow(inconsistent_fields)]
pub enum EngineCall {
    /// Allocate an empty array.
    CreateNone,
    /// Allocate an array of a shape on a device; `delay_alloc` lets the
    /// engine put off the buffer until the first write.
    Create { shape: Vec<u32>, device_type: i32, device_id: i32, delay_alloc: bool },
    /// Release an array.
    FreeArray { handle: usize },
    /// Query the shape of an array.
    GetShape { handle: usize },
    /// Query the element type code of an array.
    GetDType { handle: usize },
    /// Query the device of an array.
    GetContext { handle: usize },
    /// Read the first `len` elements of an array, as bit patterns.
    GetData { handle: usize, len: usize },
    /// Copy elements, given as bit patterns, from the host into an array.
    SyncCopyFromCpu { handle: usize, data: Vec<u32> },
    /// Block until the array can be read.
    WaitToRead { handle: usize },
    /// Block until the array can be written.
    WaitToWrite { handle: usize },
    /// Block until all pending work is done.
    WaitAll,
    /// Take the rows `begin..end` of an array as a new array.
    Slice { handle: usize, begin: u32, end: u32 },
    /// Create a graph variable.
    CreateVariable { name: String },
    /// Release a graph node.
    FreeSymbol { handle: usize },
    /// List the creator references of all composable operators.
    ListAtomicSymbolCreators,
    /// Describe a creator: its name and the names of its arguments.
    GetAtomicSymbolInfo { creator: usize },
    /// List the names of all operators.
    ListAllOpNames,
    /// Look up the engine-internal handle of an operator.
    GetOpHandle { name: String },
    /// Instantiate a creator with parameters into a graph node.
    CreateAtomicSymbol { creator: usize, keys: Vec<String>, values: Vec<String> },
    /// Bind input nodes to the argument slots of a node, by position when
    /// `keys` is empty, else by name.
    Compose { symbol: usize, name: Option<String>, keys: Vec<String>, inputs: Vec<usize> },
    /// Run an operator now. With `outputs` empty the engine allocates the
    /// results; otherwise it writes into the arrays given.
    ImperativeInvoke {
        creator: usize,
        inputs: Vec<usize>,
        outputs: Vec<usize>,
        keys: Vec<String>,
        values: Vec<String>,
    },
    /// Set the gradient-recording flag; the engine answers with the old value.
    SetIsRecording { on: bool },
    /// Set the train-mode flag; the engine answers with the old value.
    SetIsTraining { on: bool },
    /// Query the gradient-recording flag.
    IsRecording,
    /// Query the train-mode flag.
    IsTraining,
    /// Count the GPUs.
    GetGpuCount,
    /// Query free and total memory of a GPU.
    GetGpuMemoryInfo { device_id: i32 },
}

/// The mathematical content of an [`EngineCall`].
#[allow(inconsistent_fields)]
pub enum CallView {
    CreateNone,
    Create { shape: Seq<u32>, device_type: i32, device_id: i32, delay_alloc: bool },
    FreeArray { handle: usize },
    GetShape { handle: usize },
    GetDType { handle: usize },
    GetContext { handle: usize },
    GetData { handle: usize, len: usize },
    SyncCopyFromCpu { handle: usize, data: Seq<u32> },
    WaitToRead { handle: usize },
    WaitToWrite { handle: usize },
    WaitAll,
    Slice { handle: usize, begin: u32, end: u32 },
    CreateVariable { name: Seq<char> },
    FreeSymbol { handle: usize },
    ListAtomicSymbolCreators,
    GetAtomicSymbolInfo { creator: usize },
    ListAllOpNames,
    GetOpHandle { name: Seq<char> },
    CreateAtomicSymbol { creator: usize, keys: Seq<Seq<char>>, values: Seq<Seq<char>> },
    Compose {
        symbol: usize,
        name: Option<Seq<char>>,
        keys: Seq<Seq<char>>,
        inputs: Seq<usize>,
    },
    ImperativeInvoke {
        creator: usize,
        inputs: Seq<usize>,
        outputs: Seq<usize>,
        keys: Seq<Seq<char>>,
        values: Seq<Seq<char>>,
    },
    SetIsRecording { on: bool },
    SetIsTraining { on: bool },
    IsRecording,
    IsTraining,
    GetGpuCount,
    GetGpuMemoryInfo { device_id: i32 },
}

impl View for EngineCall {
    type V = CallView;

    open spec fn view(&self) -> CallView {
        match self {
            EngineCall::CreateNone => CallView::CreateNone,
            EngineCall::Create { shape, device_type, device_id, delay_alloc } => CallView::Create {
                shape: shape@,
                device_type: *device_type,
                device_id: *device_id,
                delay_alloc: *delay_alloc,
            },
            EngineCall::FreeArray { handle } => CallView::FreeArray { handle: *handle },
            EngineCall::GetShape { handle } => CallView::GetShape { handle: *handle },
            EngineCall::GetDType { handle } => CallView::GetDType { handle: *handle },
            EngineCall::GetContext { handle } => CallView::GetContext { handle: *handle },
            EngineCall::GetData { handle, len } => CallView::GetData { handle: *handle, len: *len },
            EngineCall::SyncCopyFromCpu { handle, data } => CallView::SyncCopyFromCpu {
                handle: *handle,
                data: data@,
            },
            EngineCall::WaitToRead { handle } => CallView::WaitToRead { handle: *handle },
            EngineCall::WaitToWrite { handle } => CallView::WaitToWrite { handle: *handle },
            EngineCall::WaitAll => CallView::WaitAll,
            EngineCall::Slice { handle, begin, end } => CallView::Slice {
                handle: *handle,
                begin: *begin,
                end: *end,
            },
            EngineCall::CreateVariable { name } => CallView::CreateVariable { name: name@ },
            EngineCall::FreeSymbol { handle } => CallView::FreeSymbol { handle: *handle },
            EngineCall::ListAtomicSymbolCreators => CallView::ListAtomicSymbolCreators,
            EngineCall::GetAtomicSymbolInfo { creator } => CallView::GetAtomicSymbolInfo {
                creator: *creator,
            },
            EngineCall::ListAllOpNames => CallView::ListAllOpNames,
            EngineCall::GetOpHandle { name } => CallView::GetOpHandle { name: name@ },
            EngineCall::CreateAtomicSymbol { creator, keys, values } => CallView::CreateAtomicSymbol {
                creator: *creator,
                keys: texts(keys@),
                values: texts(values@),
            },
            EngineCall::Compose { symbol, name, keys, inputs } => CallView::Compose {
                symbol: *symbol,
                name: match name {
                    Some(n) => Some(n@),
                    None => None,
                },
                keys: texts(keys@),
                inputs: inputs@,
            },
            EngineCall::ImperativeInvoke { creator, inputs, outputs, keys, values } => {
                CallView::ImperativeInvoke {
                    creator: *creator,
                    inputs: inputs@,
                    outputs: outputs@,
                    keys: texts(keys@),
                    values: texts(values@),
                }
            },
            EngineCall::SetIsRecording { on } => CallView::SetIsRecording { on: *on },
            EngineCall::SetIsTraining { on } => CallView::SetIsTraining { on: *on },
            EngineCall::IsRecording => CallView::IsRecording,
            EngineCall::IsTraining => CallView::IsTraining,
            EngineCall::GetGpuCount => CallView::GetGpuCount,
            EngineCall::GetGpuMemoryInfo { device_id } => CallView::GetGpuMemoryInfo {
                device_id: *device_id,
            },
        }
    }
}

/// What a successful engine call hands back.
#[derive(Debug, Clone, PartialEq, Eq)]
pub enum EngineValue {
    /// Nothing but the status.
    Unit,
    /// One handle or creator reference.
    Handle(usize),
    /// A list of handles or creator references.
    Handles(Vec<usize>),
    /// The extents of an array, outermost first.
    Dims(Vec<u32>),
    /// An integer: a type code, a count, or a flag's old value.
    Int(i32),
    /// A flag.
    Flag(bool),
    /// A device kind code and a device index.
    Device { device_type: i32, device_id: i32 },
    /// Free and total bytes.
    Memory { free: u64, total: u64 },
    /// The description of a creator.
    Info { name: String, arg_names: Vec<String> },
    /// A list of names.
    Names(Vec<String>),
    /// Elements of an array, as bit patterns.
    Data(Vec<u32>),
}

/// The engine's answer to one call: the status code, the engine's last-error
/// text (which counts only when the status is not zero), and the value.
#[derive(Debug, Clone, PartialEq, Eq)]
pub struct EngineReply {
    pub status: i32,
    pub last_error: String,
    pub value: EngineValue,
}

/// The outcome of a call as the engine's status decides it: a status other
/// than zero fails with the engine's last-error text, zero yields the value.
pub open spec fn checked(reply: EngineReply) -> Result<EngineValue, Error> {
    if reply.status != 0 {
        Err(Error::Engine { message: reply.last_error })
    } else {
        Ok(reply.value)
    }
}

/// Decides whether an engine call succeeded.
pub fn check_call(reply: EngineReply) -> (outcome: Result<EngineValue, Error>)
    ensures
        outcome == checked(reply),
{
    if reply.status != 0 {
        Err(Error::Engine { message: reply.last_error })
    } else {
        Ok(reply.value)
    }
}

impl EngineReply {
    /// The reply of a successful call that carries `value`.
    pub fn success(value: EngineValue) -> (reply: EngineReply)
        ensures
            reply.status == 0,
            reply.value == value,
            reply.last_error@ == Seq::<char>::empty(),
    {
        EngineReply { status: 0, last_error: String::new(), value }
    }

    /// The reply of a call that failed with `status` and left `last_error`
    /// in the engine's error slot.
    pub fn failure(status: i32, last_error: String) -> (reply: EngineReply)
        ensures
            reply.status == status,
            reply.last_error == last_error,
            reply.value == EngineValue::Unit,
    {
        EngineReply { status, last_error, value: EngineValue::Unit }
    }

    /// The outcome of a call that yields nothing but its status.
    pub open spec fn spec_done(self) -> Result<(), Error> {
        match checked(self) {
            Err(e) => Err(e),
            Ok(_) => Ok(()),
        }
    }

    /// The outcome of a call that yields one handle.
    pub open spec fn spec_handle(self) -> Result<usize, Error> {
        match checked(self) {
            Err(e) => Err(e),
            Ok(EngineValue::Handle(h)) => Ok(h),
            Ok(_) => Err(Error::UnexpectedReply),
        }
    }

    /// The outcome of a call that yields a list of handles.
    pub open spec fn spec_handles(self) -> Result<Vec<usize>, Error> {
        match checked(self) {
            Err(e) => Err(e),
            Ok(EngineValue::Handles(hs)) => Ok(hs),
            Ok(_) => Err(Error::UnexpectedReply),
        }
    }

    /// The outcome of a call that yields the extents of an array.
    pub open spec fn spec_dims(self) -> Result<Vec<u32>, Error> {
        match checked(self) {
            Err(e) => Err(e),
            Ok(EngineValue::Dims(d)) => Ok(d),
            Ok(_) => Err(Error::UnexpectedReply),
        }
    }

    /// The outcome of a call that yields an integer.
    pub open spec fn spec_integer(self) -> Result<i32, Error> {
        match checked(self) {
            Err(e) => Err(e),
            Ok(EngineValue::Int(i)) => Ok(i),
            Ok(_) => Err(Error::UnexpectedReply),
        }
    }

    /// The outcome of a call that yields a flag.
    pub open spec fn spec_flag(self) -> Result<bool, Error> {
        match checked(self) {
            Err(e) => Err(e),
            Ok(EngineValue::Flag(b)) => Ok(b),
            Ok(_) => Err(Error::UnexpectedReply),
        }
    }

    /// The outcome of a call that yields a device code and index.
    pub open spec fn spec_device(self) -> Result<(i32, i32), Error> {
        match checked(self) {
            Err(e) => Err(e),
            Ok(EngineValue::Device { device_type, device_id }) => Ok((device_type, device_id)),
            Ok(_) => Err(Error::UnexpectedReply),
        }
    }

    /// The outcome of a call that yields free and total memory.
    pub open spec fn spec_memory(self) -> Result<(u64, u64), Error> {
        match checked(self) {
            Err(e) => Err(e),
            Ok(EngineValue::Memory { free, total }) => Ok((free, total)),
            Ok(_) => Err(Error::UnexpectedReply),
        }
    }

    /// The outcome of a call that describes a creator, read for its name.
    pub open spec fn spec_info_name(self) -> Result<String, Error> {
        match checked(self) {
            Err(e) => Err(e),
            Ok(EngineValue::Info { name, arg_names }) => Ok(name),
            Ok(_) => Err(Error::UnexpectedReply),
        }
    }

    /// The outcome of a call that describes a creator, read for the names of
    /// its arguments.
    pub open spec fn spec_arg_names(self) -> Result<Vec<String>, Error> {
        match checked(self) {
            Err(e) => Err(e),
            Ok(EngineValue::Info { name, arg_names }) => Ok(arg_names),
            Ok(_) => Err(Error::UnexpectedReply),
        }
    }

    /// The outcome of a call that yields a list of names.
    pub open spec fn spec_names(self) -> Result<Vec<String>, Error> {
        match checked(self) {
            Err(e) => Err(e),
            Ok(EngineValue::Names(ns)) => Ok(ns),
            Ok(_) => Err(Error::UnexpectedReply),
        }
    }

    /// The outcome of a call that yields array elements.
    pub open spec fn spec_data(self) -> Result<Vec<u32>, Error> {
        match checked(self) {
            Err(e) => Err(e),
            Ok(EngineValue::Data(d)) => Ok(d),
            Ok(_) => Err(Error::UnexpectedReply),
        }
    }

    /// Reads the reply to a call that yields nothing but its status.
    pub fn done(&self) -> (outcome: Result<(), Error>)
        ensures
            outcome == self.spec_done(),
    {
        if self.status != 0 {
            Err(Error::Engine { message: self.last_error.clone() })
        } else {
            Ok(())
        }
    }

    /// Reads the reply to a call that yields one handle.
    pub fn handle(&self) -> (outcome: Result<usize, Error>)
        ensures
            outcome == self.spec_handle(),
    {
        if self.status != 0 {
            Err(Error::Engine { message: self.last_error.clone() })
        } else {
            match &self.value {
                EngineValue::Handle(h) => Ok(*h),
                _ => Err(Error::UnexpectedReply),
            }
        }
    }

    /// Reads the reply to a call that yields an integer.
    pub fn integer(&self) -> (outcome: Result<i32, Error>)
        ensures
            outcome == self.spec_integer(),
    {
        if self.status != 0 {
            Err(Error::Engine { message: self.last_error.clone() })
        } else {
            match &self.value {
                EngineValue::Int(i) => Ok(*i),
                _ => Err(Error::UnexpectedReply),
            }
        }
    }

    /// Reads the reply to a call that yields a flag.
    pub fn flag(&self) -> (outcome: Result<bool, Error>)
        ensures
            outcome == self.spec_flag(),
    {
        if self.status != 0 {
            Err(Error::Engine { message: self.last_error.clone() })
        } else {
            match &self.value {
                EngineValue::Flag(b) => Ok(*b),
                _ => Err(Error::UnexpectedReply),
            }
        }
    }

    /// Reads the reply to a call that yields a device code and index.
    pub fn device(&self) -> (outcome: Result<(i32, i32), Error>)
        ensures
            outcome == self.spec_device(),
    {
        if self.status != 0 {
            Err(Error::Engine { message: self.last_error.clone() })
        } else {
            match &self.value {
                EngineValue::Device { device_type, device_id } => Ok((*device_type, *device_id)),
                _ => Err(Error::UnexpectedReply),
            }
        }
    }

    /// Reads the reply to a call that yields free and total memory.
    pub fn memory(&self) -> (outcome: Result<(u64, u64), Error>)
        ensures
            outcome == self.spec_memory(),
    {
        if self.status != 0 {
            Err(Error::Engine { message: self.last_error.clone() })
        } else {
            match &self.value {
                EngineValue::Memory { free, total } => Ok((*free, *total)),
                _ => Err(Error::UnexpectedReply),
            }
        }
    }

    /// Reads the name out of the description of a creator.
    pub fn info_name(&self) -> (outcome: Result<String, Error>)
        ensures
            outcome == self.spec_info_name(),
    {
        if self.status != 0 {
            Err(Error::Engine { message: self.last_error.clone() })
        } else {
            match &self.value {
                EngineValue::Info { name, arg_names: _ } => Ok(name.clone()),
                _ => Err(Error::UnexpectedReply),
            }
        }
    }

    /// Reads the reply to a call that yields a list of handles.
    pub fn handles(self) -> (outcome: Result<Vec<usize>, Error>)
        ensures
            outcome == self.spec_handles(),
    {
        match check_call(self) {
            Err(e) => Err(e),
            Ok(EngineValue::Handles(hs)) => Ok(hs),
            Ok(_) => Err(Error::UnexpectedReply),
        }
    }

    /// Reads the reply to a call that yields the extents of an array.
    pub fn dims(self) -> (outcome: Result<Vec<u32>, Error>)
        ensures
            outcome == self.spec_dims(),
    {
        match check_call(self) {
            Err(e) => Err(e),
            Ok(EngineValue::Dims(d)) => Ok(d),
            Ok(_) => Err(Error::UnexpectedReply),
        }
    }

    /// Reads the argument names out of the description of a creator.
    pub fn arg_names(self) -> (outcome: Result<Vec<String>, Error>)
        ensures
            outcome == self.spec_arg_names(),
    {
        match check_call(self) {
            Err(e) => Err(e),
            Ok(EngineValue::Info { name: _, arg_names }) => Ok(arg_names),
            Ok(_) => Err(Error::UnexpectedReply),
        }
    }

    /// Reads the reply to a call that yields a list of names.
    pub fn names(self) -> (outcome: Result<Vec<String>, Error>)
        ensures
            outcome == self.spec_names(),
    {
        match check_call(self) {
            Err(e) => Err(e),
            Ok(EngineValue::Names(ns)) => Ok(ns),
            Ok(_) => Err(Error::UnexpectedReply),
        }
    }

    /// Reads the reply to a call that yields array elements.
    pub fn data(self) -> (outcome: Result<Vec<u32>, Error>)
        ensures
            outcome == self.spec_data(),
    {
        match check_call(self) {
            Err(e) => Err(e),
            Ok(EngineValue::Data(d)) => Ok(d),
            Ok(_) => Err(Error::UnexpectedReply),
        }
    }
}

} // verus!
