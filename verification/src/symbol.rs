//! Symbols: shared values over the engine's graph nodes.
use vstd::prelude::*;
use vstd::string::to_string_from_display_ensures;
use crate::base::{CallView, EngineCall, EngineReply, Error};
use crate::ndarray::spec_wrapped;
use crate::op_map::OpMap;
use crate::operator::{
    node_built_as, node_view, pushed, spec_create_symbol, with_param, Arith, Composition,
    Operator, OperatorView,
};
use crate::shared::{adopted, is_last, released, shared, GetHandle, Ledger};

verus! {

/// The owner of one graph-node handle. Like the blob of an array, it is made
/// once for a handle and ends in the one release call for it.
pub struct SymBlob {
    handle: usize,
}

impl GetHandle for SymBlob {
    closed spec fn spec_handle(&self) -> usize {
        self.handle
    }

    fn handle(&self) -> (handle: usize) {
        self.handle
    }
}

impl SymBlob {
    /// Takes ownership of a handle that the engine has handed out.
    pub fn new(handle: usize) -> (blob: SymBlob)
        ensures
            blob.spec_handle() == handle,
    {
        SymBlob { handle }
    }

    /// The handle, lent for further engine calls.
    pub fn handle(&self) -> (handle: usize)
        ensures
            handle == self.spec_handle(),
    {
        self.handle
    }

    /// Ends the blob: the release call for its handle.
    pub fn release(self) -> (call: EngineCall)
        ensures
            call@ == (CallView::FreeSymbol { handle: self.spec_handle() }),
    {
        EngineCall::FreeSymbol { handle: self.handle }
    }
}

/// A symbol: one of the shared values that refer to a graph node.
pub struct Symbol {
    handle: usize,
}

impl GetHandle for Symbol {
    closed spec fn spec_handle(&self) -> usize {
        self.handle
    }

    fn handle(&self) -> (handle: usize) {
        self.handle
    }
}

impl Symbol {
    /// The call that creates the graph variable `name`.
    pub fn new_call(name: &str) -> (call: EngineCall)
        ensures
            call@ == (CallView::CreateVariable { name: name@ }),
    {
        EngineCall::CreateVariable { name: name.to_owned() }
    }

    /// Wraps the handle of the variable that the engine created as a fresh
    /// symbol, the only holder of its node.
    pub fn new(symbols: &mut Ledger<SymBlob>, reply: &EngineReply) -> (outcome: Result<
        Symbol,
        Error,
    >)
        requires
            old(symbols).wf(),
        ensures
            final(symbols).wf(),
            match outcome {
                Ok(symbol) => spec_wrapped(old(symbols)@, *reply) == Ok::<usize, Error>(
                    symbol.spec_handle(),
                ) && final(symbols)@ == adopted(old(symbols)@, symbol.spec_handle()),
                Err(e) => spec_wrapped(old(symbols)@, *reply) == Err::<usize, Error>(e)
                    && final(symbols)@ == old(symbols)@,
            },
    {
        match reply.handle() {
            Err(e) => Err(e),
            Ok(handle) => Symbol::from(symbols, handle),
        }
    }

    /// Wraps a handle that was obtained from the engine as a fresh symbol,
    /// the only holder of its node. A handle that the ledger tracks already
    /// is refused.
    pub fn from(symbols: &mut Ledger<SymBlob>, handle: usize) -> (outcome: Result<Symbol, Error>)
        requires
            old(symbols).wf(),
        ensures
            final(symbols).wf(),
            match outcome {
                Ok(symbol) => !old(symbols)@.contains_key(handle) && symbol.spec_handle() == handle
                    && final(symbols)@ == adopted(old(symbols)@, handle),
                Err(e) => old(symbols)@.contains_key(handle) && e == (Error::HandleInUse { handle })
                    && final(symbols)@ == old(symbols)@,
            },
    {
        match symbols.adopt(SymBlob::new(handle)) {
            Err(e) => Err(e),
            Ok(()) => Ok(Symbol { handle }),
        }
    }

    /// An arithmetic operation on two symbols, as a graph node still to be
    /// made: a fresh builder for the operation's operator is given `self`
    /// and `rhs` as inputs, in this order, and turned into a node without a
    /// name.
    pub fn arith(&self, kind: Arith, rhs: &Symbol, op_map: &OpMap, info: EngineReply) -> (outcome:
        Result<(EngineCall, Composition), Error>)
        requires
            op_map.wf(),
        ensures
            node_built_as(
                op_map@,
                kind.spec_symbol_name(),
                info,
                |made: OperatorView|
                    spec_create_symbol(
                        pushed(pushed(made, self.spec_handle()), rhs.spec_handle()),
                        Seq::empty(),
                    ),
                node_view(outcome),
            ),
    {
        proof {
            reveal_strlit("");
            assert(""@ =~= Seq::<char>::empty());
        }
        match Operator::new(op_map, kind.symbol_name(), info) {
            Err(e) => Err(e),
            Ok(made) => made.push_input(self).push_input(rhs).create_symbol(""),
        }
    }

    /// An arithmetic operation on a symbol and a number, as a graph node
    /// still to be made: a fresh builder for the operator with the scalar
    /// suffix is given `self` as input and the number, as the text that
    /// displaying it gives, as the parameter `scalar`, and turned into a
    /// node without a name.
    pub fn arith_scalar<T: core::fmt::Display + ?Sized>(
        &self,
        kind: Arith,
        scalar: &T,
        op_map: &OpMap,
        info: EngineReply,
    ) -> (outcome: Result<(EngineCall, Composition), Error>)
        requires
            op_map.wf(),
        ensures
            exists|text: String| #[trigger]
                to_string_from_display_ensures::<T>(scalar, text) && node_built_as(
                    op_map@,
                    kind.spec_symbol_scalar_name(),
                    info,
                    |made: OperatorView|
                        spec_create_symbol(
                            with_param(pushed(made, self.spec_handle()), "scalar"@, text@),
                            Seq::empty(),
                        ),
                    node_view(outcome),
                ),
    {
        let text = scalar.to_string();
        self.arith_scalar_text(kind, text.as_str(), op_map, info)
    }

    /// The arithmetic operation on a symbol and the number that reads
    /// `scalar`.
    pub fn arith_scalar_text(&self, kind: Arith, scalar: &str, op_map: &OpMap, info: EngineReply) -> (outcome:
        Result<(EngineCall, Composition), Error>)
        requires
            op_map.wf(),
        ensures
            node_built_as(
                op_map@,
                kind.spec_symbol_scalar_name(),
                info,
                |made: OperatorView|
                    spec_create_symbol(
                        with_param(pushed(made, self.spec_handle()), "scalar"@, scalar@),
                        Seq::empty(),
                    ),
                node_view(outcome),
            ),
    {
        proof {
            reveal_strlit("");
            assert(""@ =~= Seq::<char>::empty());
        }
        let name = kind.symbol_scalar_name();
        match Operator::new(op_map, name.as_str(), info) {
            Err(e) => Err(e),
            Ok(made) => made.push_input(self).set_param_text("scalar", scalar).create_symbol(""),
        }
    }

    /// One more shared value for the same node.
    pub fn share(&self, symbols: &mut Ledger<SymBlob>) -> (outcome: Result<Symbol, Error>)
        requires
            old(symbols).wf(),
        ensures
            final(symbols).wf(),
            match outcome {
                Ok(symbol) => symbol.spec_handle() == self.spec_handle()
                    && old(symbols)@.contains_key(self.spec_handle()) && old(
                    symbols,
                )@[self.spec_handle()] < usize::MAX && final(symbols)@ == shared(
                    old(symbols)@,
                    self.spec_handle(),
                ),
                Err(e) => final(symbols)@ == old(symbols)@ && if old(symbols)@.contains_key(
                    self.spec_handle(),
                ) {
                    old(symbols)@[self.spec_handle()] >= usize::MAX && e == (Error::ShareLimit {
                        handle: self.spec_handle(),
                    })
                } else {
                    e == (Error::StaleHandle { handle: self.spec_handle() })
                },
            },
    {
        match symbols.share(self.handle) {
            Err(e) => Err(e),
            Ok(()) => Ok(Symbol { handle: self.handle }),
        }
    }

    /// Ends this shared value. When it was the last one of its handle, the
    /// result is the one release call for the handle.
    pub fn release(self, symbols: &mut Ledger<SymBlob>) -> (outcome: Result<
        Option<EngineCall>,
        Error,
    >)
        requires
            old(symbols).wf(),
        ensures
            final(symbols).wf(),
            match outcome {
                Ok(Some(call)) => is_last(old(symbols)@, self.spec_handle()) && call@ == (
                CallView::FreeSymbol { handle: self.spec_handle() }) && final(symbols)@ == released(
                    old(symbols)@,
                    self.spec_handle(),
                ),
                Ok(None) => old(symbols)@.contains_key(self.spec_handle()) && !is_last(
                    old(symbols)@,
                    self.spec_handle(),
                ) && final(symbols)@ == released(old(symbols)@, self.spec_handle()),
                Err(e) => !old(symbols)@.contains_key(self.spec_handle()) && e == (
                Error::StaleHandle { handle: self.spec_handle() }) && final(symbols)@ == old(
                    symbols,
                )@,
            },
    {
        match symbols.release(self.handle) {
            Err(e) => Err(e),
            Ok(None) => Ok(None),
            Ok(Some(blob)) => Ok(Some(blob.release())),
        }
    }
}

} // verus!
