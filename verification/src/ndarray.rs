//! Arrays: shared values over the engine's tensor resources.
use vstd::prelude::*;
use vstd::string::to_string_from_display_ensures;
use crate::base::{CallView, EngineCall, EngineReply, Error};
use crate::context::{context_of, spec_context_of, Context, DeviceType};
use crate::op_map::OpMap;
use crate::operator::{
    built_as, call_view, fresh, pushed, spec_invoke, with_param, Arith, Operator, OperatorView,
};
use crate::shared::{adopted, is_last, released, shared, GetHandle, Ledger};

verus! {

/// The owner of one array handle. A blob is made right after the engine has
/// handed the handle out, is never copied, and ends in the one release call
/// for its handle.
pub struct NDBlob {
    handle: usize,
}

impl GetHandle for NDBlob {
    closed spec fn spec_handle(&self) -> usize {
        self.handle
    }

    fn handle(&self) -> (handle: usize) {
        self.handle
    }
}

impl NDBlob {
    /// Takes ownership of a handle that the engine has handed out.
    pub fn new(handle: usize) -> (blob: NDBlob)
        ensures
            blob.spec_handle() == handle,
    {
        NDBlob { handle }
    }

    /// The handle, lent for further engine calls.
    pub fn handle(&self) -> (handle: usize)
        ensures
            handle == self.spec_handle(),
    {
        self.handle
    }

    /// Ends the blob: the release call for its handle.
    pub fn release(self) -> (call: EngineCall)
        ensures
            call@ == (CallView::FreeArray { handle: self.spec_handle() }),
    {
        EngineCall::FreeArray { handle: self.handle }
    }
}

/// The number of elements of an array of the given extents.
pub open spec fn product(dims: Seq<u32>) -> int
    decreases dims.len(),
{
    if dims.len() == 0 {
        1
    } else {
        product(dims.drop_last()) * (dims.last() as int)
    }
}

/// The number of elements that a reply to the shape query stands for.
pub open spec fn spec_size(reply: EngineReply) -> Result<u32, Error> {
    match reply.spec_dims() {
        Err(e) => Err(e),
        Ok(dims) => if product(dims@) > u32::MAX {
            Err(Error::SizeOverflow)
        } else {
            Ok(product(dims@) as u32)
        },
    }
}

/// An array with an extent of zero has no elements.
pub proof fn lemma_product_zero(dims: Seq<u32>, i: int)
    requires
        0 <= i < dims.len(),
        dims[i] == 0,
    ensures
        product(dims) == 0,
    decreases dims.len(),
{
    if i < dims.len() - 1 {
        lemma_product_zero(dims.drop_last(), i);
        assert(product(dims.drop_last()) * (dims.last() as int) == 0) by (nonlinear_arith)
            requires
                product(dims.drop_last()) == 0,
        ;
    } else {
        assert(product(dims.drop_last()) * (dims.last() as int) == 0) by (nonlinear_arith)
            requires
                dims.last() == 0,
        ;
    }
}

/// Where no extent is zero, the element count does not shrink as extents
/// are added.
pub proof fn lemma_product_grows(dims: Seq<u32>, n: int)
    requires
        0 <= n <= dims.len(),
        forall|j: int| 0 <= j < dims.len() ==> dims[j] >= 1,
    ensures
        1 <= product(dims.take(n)) <= product(dims),
    decreases dims.len() - n,
{
    lemma_product_positive(dims.take(n));
    if n < dims.len() {
        let longer = dims.take(n + 1);
        assert(longer.drop_last() =~= dims.take(n));
        assert(longer.last() == dims[n]);
        assert(product(dims.take(n)) <= product(dims.take(n)) * (dims[n] as int))
            by (nonlinear_arith)
            requires
                product(dims.take(n)) >= 1,
                dims[n] >= 1,
        ;
        lemma_product_grows(dims, n + 1);
    } else {
        assert(dims.take(n) =~= dims);
    }
}

/// Where no extent is zero, there is at least one element.
pub proof fn lemma_product_positive(dims: Seq<u32>)
    requires
        forall|j: int| 0 <= j < dims.len() ==> dims[j] >= 1,
    ensures
        product(dims) >= 1,
    decreases dims.len(),
{
    if dims.len() > 0 {
        lemma_product_positive(dims.drop_last());
        assert(product(dims.drop_last()) * (dims.last() as int) >= 1) by (nonlinear_arith)
            requires
                product(dims.drop_last()) >= 1,
                dims.last() >= 1,
        ;
    }
}

/// Multiplies the extents. `None` says that the count does not fit.
fn count_elements(dims: &Vec<u32>) -> (count: Option<u32>)
    ensures
        match count {
            Some(n) => n == product(dims@),
            None => product(dims@) > u32::MAX,
        },
{
    let mut k: usize = 0;
    while k < dims.len()
        invariant
            k <= dims@.len(),
            forall|j: int| 0 <= j < k ==> dims@[j] >= 1,
        decreases dims@.len() - k,
    {
        if dims[k] == 0 {
            proof {
                lemma_product_zero(dims@, k as int);
            }
            return Some(0);
        }
        k += 1;
    }
    let mut total: u64 = 1;
    let mut i: usize = 0;
    while i < dims.len()
        invariant
            i <= dims@.len(),
            forall|j: int| 0 <= j < dims@.len() ==> dims@[j] >= 1,
            total == product(dims@.take(i as int)),
            total <= u32::MAX,
        decreases dims@.len() - i,
    {
        let ghost longer = dims@.take(i + 1);
        assert(longer.drop_last() =~= dims@.take(i as int));
        assert(longer.last() == dims@[i as int]);
        assert(total * (dims@[i as int] as u64) <= 0xffff_ffff * 0xffff_ffff) by (nonlinear_arith)
            requires
                total <= 0xffff_ffff,
                dims@[i as int] <= 0xffff_ffff,
        ;
        let next: u64 = total * (dims[i] as u64);
        if next > 0xffff_ffff {
            proof {
                lemma_product_grows(dims@, i + 1);
            }
            return None;
        }
        total = next;
        i += 1;
    }
    assert(dims@.take(i as int) =~= dims@);
    Some(total as u32)
}

/// An array: one of the shared values that refer to an array resource.
///
/// The value refers to the blob of its handle in a [`Ledger`]. It is not
/// copied; another value for the same resource is made by [`NDArray::share`],
/// and a value ends in [`NDArray::release`]. All values of one handle stand
/// for the same resource: what is written through one is read through the
/// others.
pub struct NDArray {
    handle: usize,
}

impl GetHandle for NDArray {
    closed spec fn spec_handle(&self) -> usize {
        self.handle
    }

    fn handle(&self) -> (handle: usize) {
        self.handle
    }
}

/// What wrapping the handle of a reply as a fresh shared value comes to: the
/// handle, when the reply carries one that the ledger does not track yet.
pub open spec fn spec_wrapped(counts: Map<usize, nat>, reply: EngineReply) -> Result<usize, Error> {
    match reply.spec_handle() {
        Err(e) => Err(e),
        Ok(handle) => if counts.contains_key(handle) {
            Err(Error::HandleInUse { handle })
        } else {
            Ok(handle)
        },
    }
}

/// The share counts after the handles from place `from` on were wrapped as
/// fresh arrays, one after the other, and the handle at which this stopped,
/// if it did: the first one that was tracked already.
pub open spec fn wrap_all(counts: Map<usize, nat>, handles: Seq<usize>, from: int) -> (
    Map<usize, nat>,
    Option<usize>,
)
    decreases handles.len() - from,
{
    if from < 0 || from >= handles.len() {
        (counts, None)
    } else if counts.contains_key(handles[from]) {
        (counts, Some(handles[from]))
    } else {
        wrap_all(adopted(counts, handles[from]), handles, from + 1)
    }
}

/// The handles of a list of arrays.
pub open spec fn handles_of(arrays: Seq<NDArray>) -> Seq<usize> {
    arrays.map_values(|a: NDArray| a.spec_handle())
}

impl NDArray {
    /// Wraps each of the handles as a fresh array, in order. This stops at
    /// the first handle that the ledger tracks already; the handles before
    /// it stay tracked, with one holder each.
    pub fn from_handles(arrays: &mut Ledger<NDBlob>, handles: &Vec<usize>) -> (outcome: Result<
        Vec<NDArray>,
        Error,
    >)
        requires
            old(arrays).wf(),
        ensures
            final(arrays).wf(),
            final(arrays)@ == wrap_all(old(arrays)@, handles@, 0).0,
            match outcome {
                Ok(results) => wrap_all(old(arrays)@, handles@, 0).1 == None::<usize> && handles_of(
                    results@,
                ) == handles@,
                Err(e) => wrap_all(old(arrays)@, handles@, 0).1 matches Some(clash) && e == (
                Error::HandleInUse { handle: clash }),
            },
    {
        let mut results: Vec<NDArray> = Vec::new();
        let mut i: usize = 0;
        while i < handles.len()
            invariant
                i <= handles@.len(),
                arrays.wf(),
                wrap_all(old(arrays)@, handles@, 0) == wrap_all(arrays@, handles@, i as int),
                results@.len() == i,
                forall|j: int| 0 <= j < i ==> (#[trigger] results@[j]).spec_handle() == handles@[j],
            decreases handles@.len() - i,
        {
            match NDArray::from(arrays, handles[i]) {
                Err(e) => {
                    return Err(e);
                },
                Ok(array) => {
                    results.push(array);
                },
            }
            i += 1;
        }
        assert(handles_of(results@) =~= handles@);
        Ok(results)
    }

    /// The call that allocates an empty array.
    pub fn new_call() -> (call: EngineCall)
        ensures
            call@ == CallView::CreateNone,
    {
        EngineCall::CreateNone
    }

    /// Wraps the handle that the engine handed out as a fresh array, the
    /// only holder of its resource.
    pub fn new(arrays: &mut Ledger<NDBlob>, reply: &EngineReply) -> (outcome: Result<NDArray, Error>)
        requires
            old(arrays).wf(),
        ensures
            final(arrays).wf(),
            match outcome {
                Ok(array) => spec_wrapped(old(arrays)@, *reply) == Ok::<usize, Error>(
                    array.spec_handle(),
                ) && final(arrays)@ == adopted(old(arrays)@, array.spec_handle()),
                Err(e) => spec_wrapped(old(arrays)@, *reply) == Err::<usize, Error>(e)
                    && final(arrays)@ == old(arrays)@,
            },
    {
        match reply.handle() {
            Err(e) => Err(e),
            Ok(handle) => NDArray::from(arrays, handle),
        }
    }

    /// Wraps a handle that was obtained from the engine as a fresh array,
    /// the only holder of its resource. The handle is taken on trust, but
    /// for one thing: a handle that the ledger tracks already is refused.
    pub fn from(arrays: &mut Ledger<NDBlob>, handle: usize) -> (outcome: Result<NDArray, Error>)
        requires
            old(arrays).wf(),
        ensures
            final(arrays).wf(),
            match outcome {
                Ok(array) => !old(arrays)@.contains_key(handle) && array.spec_handle() == handle
                    && final(arrays)@ == adopted(old(arrays)@, handle),
                Err(e) => old(arrays)@.contains_key(handle) && e == (Error::HandleInUse { handle })
                    && final(arrays)@ == old(arrays)@,
            },
    {
        match arrays.adopt(NDBlob::new(handle)) {
            Err(e) => Err(e),
            Ok(()) => Ok(NDArray { handle }),
        }
    }

    /// A builder for an array with data, a shape and a device.
    pub fn builder() -> (builder: NDArrayBuilder)
        ensures
            builder@ == NDArrayBuilder::fresh(),
    {
        NDArrayBuilder::new()
    }

    /// One more shared value for the same resource: the result has the
    /// handle of `self`, and the share count of the handle grows by one.
    pub fn share(&self, arrays: &mut Ledger<NDBlob>) -> (outcome: Result<NDArray, Error>)
        requires
            old(arrays).wf(),
        ensures
            final(arrays).wf(),
            match outcome {
                Ok(array) => array.spec_handle() == self.spec_handle() && old(arrays)@.contains_key(
                    self.spec_handle(),
                ) && old(arrays)@[self.spec_handle()] < usize::MAX && final(arrays)@ == shared(
                    old(arrays)@,
                    self.spec_handle(),
                ),
                Err(e) => final(arrays)@ == old(arrays)@ && if old(arrays)@.contains_key(
                    self.spec_handle(),
                ) {
                    old(arrays)@[self.spec_handle()] >= usize::MAX && e == (Error::ShareLimit {
                        handle: self.spec_handle(),
                    })
                } else {
                    e == (Error::StaleHandle { handle: self.spec_handle() })
                },
            },
    {
        match arrays.share(self.handle) {
            Err(e) => Err(e),
            Ok(()) => Ok(NDArray { handle: self.handle }),
        }
    }

    /// Ends this shared value. When it was the last one of its handle, the
    /// resource's life ends with it: the result is the one release call for
    /// the handle. Otherwise there is nothing to call.
    pub fn release(self, arrays: &mut Ledger<NDBlob>) -> (outcome: Result<Option<EngineCall>, Error>)
        requires
            old(arrays).wf(),
        ensures
            final(arrays).wf(),
            match outcome {
                Ok(Some(call)) => is_last(old(arrays)@, self.spec_handle()) && call@ == (
                CallView::FreeArray { handle: self.spec_handle() }) && final(arrays)@ == released(
                    old(arrays)@,
                    self.spec_handle(),
                ),
                Ok(None) => old(arrays)@.contains_key(self.spec_handle()) && !is_last(
                    old(arrays)@,
                    self.spec_handle(),
                ) && final(arrays)@ == released(old(arrays)@, self.spec_handle()),
                Err(e) => !old(arrays)@.contains_key(self.spec_handle()) && e == (
                Error::StaleHandle { handle: self.spec_handle() }) && final(arrays)@ == old(
                    arrays,
                )@,
            },
    {
        match arrays.release(self.handle) {
            Err(e) => Err(e),
            Ok(None) => Ok(None),
            Ok(Some(blob)) => Ok(Some(blob.release())),
        }
    }

    /// The call that blocks until the array can be read.
    pub fn wait_to_read(&self) -> (call: EngineCall)
        ensures
            call@ == (CallView::WaitToRead { handle: self.spec_handle() }),
    {
        EngineCall::WaitToRead { handle: self.handle }
    }

    /// The call that blocks until the array can be written.
    pub fn wait_to_write(&self) -> (call: EngineCall)
        ensures
            call@ == (CallView::WaitToWrite { handle: self.spec_handle() }),
    {
        EngineCall::WaitToWrite { handle: self.handle }
    }

    /// The call that blocks until all pending work of the engine is done.
    pub fn wait_all(&self) -> (call: EngineCall)
        ensures
            call@ == CallView::WaitAll,
    {
        EngineCall::WaitAll
    }

    /// The call that takes the rows `begin..end` of this array as a new
    /// array.
    pub fn slice_call(&self, begin: u32, end: u32) -> (call: EngineCall)
        ensures
            call@ == (CallView::Slice { handle: self.spec_handle(), begin, end }),
    {
        EngineCall::Slice { handle: self.handle, begin, end }
    }

    /// Wraps the handle of the slice that the engine made as a fresh array.
    pub fn slice(arrays: &mut Ledger<NDBlob>, reply: &EngineReply) -> (outcome: Result<
        NDArray,
        Error,
    >)
        requires
            old(arrays).wf(),
        ensures
            final(arrays).wf(),
            match outcome {
                Ok(array) => spec_wrapped(old(arrays)@, *reply) == Ok::<usize, Error>(
                    array.spec_handle(),
                ) && final(arrays)@ == adopted(old(arrays)@, array.spec_handle()),
                Err(e) => spec_wrapped(old(arrays)@, *reply) == Err::<usize, Error>(e)
                    && final(arrays)@ == old(arrays)@,
            },
    {
        NDArray::new(arrays, reply)
    }

    /// The call that asks for the shape of this array. The shape is asked
    /// for anew each time; nothing is kept.
    pub fn shape_call(&self) -> (call: EngineCall)
        ensures
            call@ == (CallView::GetShape { handle: self.spec_handle() }),
    {
        EngineCall::GetShape { handle: self.handle }
    }

    /// The number of elements, from the reply to the shape query: the
    /// product of the extents, which is one for an array without extents.
    pub fn size(reply: EngineReply) -> (outcome: Result<u32, Error>)
        ensures
            outcome == spec_size(reply),
    {
        match reply.dims() {
            Err(e) => Err(e),
            Ok(dims) => match count_elements(&dims) {
                None => Err(Error::SizeOverflow),
                Some(n) => Ok(n),
            },
        }
    }

    /// The extents, outermost first, from the reply to the shape query.
    pub fn shape(reply: EngineReply) -> (outcome: Result<Vec<u32>, Error>)
        ensures
            outcome == reply.spec_dims(),
    {
        reply.dims()
    }

    /// The call that asks for the element type of this array.
    pub fn dtype_call(&self) -> (call: EngineCall)
        ensures
            call@ == (CallView::GetDType { handle: self.spec_handle() }),
    {
        EngineCall::GetDType { handle: self.handle }
    }

    /// The engine's code of the element type, from the reply to the type
    /// query.
    pub fn dtype(reply: &EngineReply) -> (outcome: Result<i32, Error>)
        ensures
            outcome == reply.spec_integer(),
    {
        NDArray::raw_dtype(reply)
    }

    /// The engine's code of the element type, as the engine gave it.
    pub fn raw_dtype(reply: &EngineReply) -> (outcome: Result<i32, Error>)
        ensures
            outcome == reply.spec_integer(),
    {
        reply.integer()
    }

    /// The call that asks for the device of this array.
    pub fn context_call(&self) -> (call: EngineCall)
        ensures
            call@ == (CallView::GetContext { handle: self.spec_handle() }),
    {
        EngineCall::GetContext { handle: self.handle }
    }

    /// The device, from the reply to the device query. A device kind that
    /// is not known is an error.
    pub fn context(reply: EngineReply) -> (outcome: Result<Context, Error>)
        ensures
            outcome == spec_context_of(reply),
    {
        context_of(reply)
    }

    /// An arithmetic operation on two arrays, as an invocation: a fresh
    /// builder for the operation's operator is given `self` and `rhs` as
    /// inputs, in this order, and invoked with `output` as the one output.
    /// For `a + b` the output is a new empty array; for `a += b` it is `a`
    /// itself. `info` is the engine's description of the operator.
    pub fn arith(
        &self,
        kind: Arith,
        rhs: &NDArray,
        output: &NDArray,
        op_map: &OpMap,
        info: EngineReply,
    ) -> (outcome: Result<EngineCall, Error>)
        requires
            op_map.wf(),
        ensures
            built_as(
                op_map@,
                kind.spec_name(),
                info,
                |op: OperatorView|
                    spec_invoke(
                        pushed(pushed(op, self.spec_handle()), rhs.spec_handle()),
                        seq![output.spec_handle()],
                    ),
                call_view(outcome),
            ),
    {
        match Operator::new(op_map, kind.name(), info) {
            Err(e) => Err(e),
            Ok(op) => op.push_input(self).push_input(rhs).invoke_with(output),
        }
    }

    /// An arithmetic operation on an array and a number, as an invocation:
    /// a fresh builder for the operator with the scalar suffix is given
    /// `self` as input and the number, as the text that displaying it gives,
    /// as the parameter `scalar`, and invoked with `output` as the one
    /// output. For `a + 1` the output is a new empty array; for `a += 1` it
    /// is `a` itself.
    pub fn arith_scalar<T: core::fmt::Display + ?Sized>(
        &self,
        kind: Arith,
        scalar: &T,
        output: &NDArray,
        op_map: &OpMap,
        info: EngineReply,
    ) -> (outcome: Result<EngineCall, Error>)
        requires
            op_map.wf(),
        ensures
            exists|text: String| #[trigger]
                to_string_from_display_ensures::<T>(scalar, text) && built_as(
                    op_map@,
                    kind.spec_scalar_name(),
                    info,
                    |op: OperatorView|
                        spec_invoke(
                            with_param(pushed(op, self.spec_handle()), "scalar"@, text@),
                            seq![output.spec_handle()],
                        ),
                    call_view(outcome),
                ),
    {
        let text = scalar.to_string();
        self.arith_scalar_text(kind, text.as_str(), output, op_map, info)
    }

    /// The arithmetic operation on an array and the number that reads
    /// `scalar`.
    pub fn arith_scalar_text(
        &self,
        kind: Arith,
        scalar: &str,
        output: &NDArray,
        op_map: &OpMap,
        info: EngineReply,
    ) -> (outcome: Result<EngineCall, Error>)
        requires
            op_map.wf(),
        ensures
            built_as(
                op_map@,
                kind.spec_scalar_name(),
                info,
                |op: OperatorView|
                    spec_invoke(
                        with_param(pushed(op, self.spec_handle()), "scalar"@, scalar@),
                        seq![output.spec_handle()],
                    ),
                call_view(outcome),
            ),
    {
        let name = kind.scalar_name();
        match Operator::new(op_map, name.as_str(), info) {
            Err(e) => Err(e),
            Ok(op) => op.push_input(self).set_param_text("scalar", scalar).invoke_with(output),
        }
    }

    /// The invocation that copies this array into `other`.
    pub fn copy_to(&self, other: &NDArray, op_map: &OpMap, info: EngineReply) -> (outcome: Result<
        EngineCall,
        Error,
    >)
        requires
            op_map.wf(),
        ensures
            built_as(
                op_map@,
                "copyto"@,
                info,
                |op: OperatorView|
                    spec_invoke(pushed(op, self.spec_handle()), seq![other.spec_handle()]),
                call_view(outcome),
            ),
    {
        match Operator::new(op_map, "copyto", info) {
            Err(e) => Err(e),
            Ok(op) => op.push_input(self).invoke_with(other),
        }
    }

    /// The invocation that writes, for each row of this array, the index
    /// of its largest element into `output`.
    pub fn argmax_channel(&self, output: &NDArray, op_map: &OpMap, info: EngineReply) -> (outcome:
        Result<EngineCall, Error>)
        requires
            op_map.wf(),
        ensures
            built_as(
                op_map@,
                "argmax_channel"@,
                info,
                |op: OperatorView|
                    spec_invoke(pushed(op, self.spec_handle()), seq![output.spec_handle()]),
                call_view(outcome),
            ),
    {
        match Operator::new(op_map, "argmax_channel", info) {
            Err(e) => Err(e),
            Ok(op) => op.push_input(self).invoke_with(output),
        }
    }

    /// The call that reads the elements of this array, of which there are
    /// `size`.
    pub fn data_call(&self, size: u32) -> (call: EngineCall)
        ensures
            call@ == (CallView::GetData { handle: self.spec_handle(), len: size as usize }),
    {
        EngineCall::GetData { handle: self.handle, len: size as usize }
    }

    /// The elements, as bit patterns, from the reply to the read.
    pub fn data(reply: EngineReply) -> (outcome: Result<Vec<u32>, Error>)
        ensures
            outcome == reply.spec_data(),
    {
        reply.data()
    }

    /// Whether the elements have to be copied to the host before they can
    /// be read: they have to when the array lives on a GPU.
    pub fn needs_host_copy(context: &Context) -> (needed: bool)
        ensures
            needed == (context.spec_device_type() == DeviceType::GPU),
    {
        context.device_type() == DeviceType::GPU
    }
}

/// The settings of an array builder.
pub struct BuilderView {
    pub data: Seq<u32>,
    pub shape: Seq<u32>,
    pub context: Context,
    pub delay_alloc: bool,
}

/// Collects the data, the shape and the device of an array to be made.
pub struct NDArrayBuilder {
    data: Vec<u32>,
    shape: Vec<u32>,
    context: Context,
    delay_alloc: bool,
}

impl View for NDArrayBuilder {
    type V = BuilderView;

    closed spec fn view(&self) -> BuilderView {
        BuilderView {
            data: self.data@,
            shape: self.shape@,
            context: self.context,
            delay_alloc: self.delay_alloc,
        }
    }
}

impl NDArrayBuilder {
    /// The settings of a new builder: no data, no extents, the first CPU,
    /// and allocation put off.
    pub open spec fn fresh() -> BuilderView {
        BuilderView {
            data: Seq::empty(),
            shape: Seq::empty(),
            context: Context::spec_new(DeviceType::CPU, 0),
            delay_alloc: true,
        }
    }

    /// The call that allocates the array which the settings describe. The
    /// engine may put the allocation off only where there is no data to
    /// copy in.
    pub open spec fn spec_create(settings: BuilderView) -> CallView {
        CallView::Create {
            shape: settings.shape,
            device_type: settings.context.spec_device_type().spec_code(),
            device_id: settings.context.spec_device_id(),
            delay_alloc: settings.data.len() == 0 && settings.delay_alloc,
        }
    }

    /// The call that has to follow the allocation, if any: the copy of the
    /// data into the array `handle`.
    pub open spec fn spec_fill(settings: BuilderView, handle: usize) -> Option<CallView> {
        if settings.data.len() == 0 {
            None
        } else {
            Some(CallView::SyncCopyFromCpu { handle, data: settings.data })
        }
    }

    /// A builder with the settings of [`NDArrayBuilder::fresh`].
    pub fn new() -> (builder: NDArrayBuilder)
        ensures
            builder@ == Self::fresh(),
    {
        NDArrayBuilder {
            data: Vec::new(),
            shape: Vec::new(),
            context: Context::new(DeviceType::CPU, 0),
            delay_alloc: true,
        }
    }

    /// Sets the elements, given as bit patterns, and makes the shape that
    /// of a one-dimensional array of their number.
    pub fn data(self, data: Vec<u32>) -> (builder: NDArrayBuilder)
        ensures
            builder@ == (BuilderView {
                data: data@,
                shape: seq![data@.len() as u32],
                ..self@
            }),
    {
        let mut shape: Vec<u32> = Vec::new();
        #[verifier::truncate]
        let n: u32 = data.len() as u32;
        shape.push(n);
        assert(shape@ =~= seq![data@.len() as u32]);
        NDArrayBuilder { data, shape, context: self.context, delay_alloc: self.delay_alloc }
    }

    /// Sets the extents, outermost first.
    pub fn shape(self, shape: Vec<u32>) -> (builder: NDArrayBuilder)
        ensures
            builder@ == (BuilderView { shape: shape@, ..self@ }),
    {
        NDArrayBuilder {
            data: self.data,
            shape,
            context: self.context,
            delay_alloc: self.delay_alloc,
        }
    }

    /// Sets the device.
    pub fn context(self, context: Context) -> (builder: NDArrayBuilder)
        ensures
            builder@ == (BuilderView { context, ..self@ }),
    {
        NDArrayBuilder {
            data: self.data,
            shape: self.shape,
            context,
            delay_alloc: self.delay_alloc,
        }
    }

    /// Says whether the engine may put off the allocation until the first
    /// write.
    pub fn delay_alloc(self, delay_alloc: bool) -> (builder: NDArrayBuilder)
        ensures
            builder@ == (BuilderView { delay_alloc, ..self@ }),
    {
        NDArrayBuilder {
            data: self.data,
            shape: self.shape,
            context: self.context,
            delay_alloc,
        }
    }

    /// The call that allocates the array.
    pub fn create(&self) -> (call: EngineCall)
        ensures
            call@ == Self::spec_create(self@),
    {
        EngineCall::Create {
            shape: self.shape.clone(),
            device_type: self.context.device_type().code(),
            device_id: self.context.device_id(),
            delay_alloc: self.data.len() == 0 && self.delay_alloc,
        }
    }

    /// Wraps the handle of the array that the engine allocated, and says
    /// which call has to follow: the copy of the data, where there is data.
    pub fn created(self, arrays: &mut Ledger<NDBlob>, reply: &EngineReply) -> (outcome: Result<
        (NDArray, Option<EngineCall>),
        Error,
    >)
        requires
            old(arrays).wf(),
        ensures
            final(arrays).wf(),
            match outcome {
                Ok((array, fill)) => spec_wrapped(old(arrays)@, *reply) == Ok::<usize, Error>(
                    array.spec_handle(),
                ) && final(arrays)@ == adopted(old(arrays)@, array.spec_handle()) && match fill {
                    Some(call) => Self::spec_fill(self@, array.spec_handle()) == Some(call@),
                    None => Self::spec_fill(self@, array.spec_handle()) == None::<CallView>,
                },
                Err(e) => spec_wrapped(old(arrays)@, *reply) == Err::<usize, Error>(e)
                    && final(arrays)@ == old(arrays)@,
            },
    {
        match NDArray::new(arrays, reply) {
            Err(e) => Err(e),
            Ok(array) => {
                if self.data.len() == 0 {
                    Ok((array, None))
                } else {
                    let call = EngineCall::SyncCopyFromCpu { handle: array.handle, data: self.data };
                    Ok((array, Some(call)))
                }
            },
        }
    }
}

/// Arithmetic on two arrays is an invocation like any other: an operation
/// on the arrays `a` and `b` with the output `out` is the one call that
/// hands the engine the operator of the operation, `a` and `b` as its
/// inputs in this order, no parameters, and `out` as the one array to write
/// into.
pub proof fn lemma_arith_is_invocation(
    creator: usize,
    arg_names: Seq<Seq<char>>,
    a: usize,
    b: usize,
    out: usize,
)
    ensures
        spec_invoke(pushed(pushed(fresh(creator, arg_names), a), b), seq![out]) == Ok::<
            CallView,
            Error,
        >(
            CallView::ImperativeInvoke {
                creator,
                inputs: seq![a, b],
                outputs: seq![out],
                keys: Seq::empty(),
                values: Seq::empty(),
            },
        ),
{
    assert(pushed(pushed(fresh(creator, arg_names), a), b).inputs =~= seq![a, b]);
}

/// Arithmetic in place with a number: `a += x` is the one call that hands
/// the engine the operator with the scalar suffix, `a` as its only input,
/// the text of `x` as the parameter `scalar`, and `a` again as the one array
/// to write into.
pub proof fn lemma_arith_scalar_in_place(
    creator: usize,
    arg_names: Seq<Seq<char>>,
    a: usize,
    scalar: Seq<char>,
)
    ensures
        spec_invoke(with_param(pushed(fresh(creator, arg_names), a), "scalar"@, scalar), seq![a])
            == Ok::<CallView, Error>(
            CallView::ImperativeInvoke {
                creator,
                inputs: seq![a],
                outputs: seq![a],
                keys: seq!["scalar"@],
                values: seq![scalar],
            },
        ),
{
    let op = with_param(pushed(fresh(creator, arg_names), a), "scalar"@, scalar);
    assert(op.inputs =~= seq![a]);
    assert(!Seq::<Seq<char>>::empty().contains("scalar"@));
    assert(op.param_keys =~= seq!["scalar"@]);
    assert(op.param_values =~= seq![scalar]);
}

/// Aliasing: two shared values of one handle are one resource to the
/// engine. Whatever is asked of the engine through one of them is, call for
/// call, what is asked through the other: a write through the one is a
/// write to the resource that the other reads.
pub proof fn lemma_alias_is_same_resource(
    array: NDArray,
    alias: NDArray,
    op: OperatorView,
    outputs: Seq<usize>,
)
    requires
        alias.spec_handle() == array.spec_handle(),
    ensures
        spec_invoke(op, seq![alias.spec_handle()]) == spec_invoke(op, seq![array.spec_handle()]),
        spec_invoke(pushed(op, alias.spec_handle()), outputs) == spec_invoke(
            pushed(op, array.spec_handle()),
            outputs,
        ),
        (CallView::GetShape { handle: alias.spec_handle() }) == (CallView::GetShape {
            handle: array.spec_handle(),
        }),
        (CallView::GetData { handle: alias.spec_handle(), len: 0 }) == (CallView::GetData {
            handle: array.spec_handle(),
            len: 0,
        }),
{
}

/// Does nothing and yields nothing.
pub fn ones() {
}

} // verus!
