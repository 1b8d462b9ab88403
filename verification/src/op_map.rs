//! The operator registry: from operator names to the engine's references.
//!
//! A registry is built once, from what the engine lists, and only read
//! afterwards. It is an ordinary value: whoever looks operators up is handed
//! the registry.
use vstd::prelude::*;
use crate::base::{texts, CallView, EngineCall, EngineReply, Error};
use crate::dict::{lemma_put_is_insert, Dict};

verus! {

/// The handles that a list of replies carries, or the error of the first
/// reply that carries none.
pub open spec fn read_handles(replies: Seq<EngineReply>) -> Result<Seq<usize>, Error>
    decreases replies.len(),
{
    if replies.len() == 0 {
        Ok(Seq::empty())
    } else {
        match read_handles(replies.drop_last()) {
            Err(e) => Err(e),
            Ok(handles) => match replies.last().spec_handle() {
                Err(e) => Err(e),
                Ok(h) => Ok(handles.push(h)),
            },
        }
    }
}

/// The creator names that a list of descriptions carries, or the error of
/// the first reply that carries none.
pub open spec fn read_names(replies: Seq<EngineReply>) -> Result<Seq<Seq<char>>, Error>
    decreases replies.len(),
{
    if replies.len() == 0 {
        Ok(Seq::empty())
    } else {
        match read_names(replies.drop_last()) {
            Err(e) => Err(e),
            Ok(names) => match replies.last().spec_info_name() {
                Err(e) => Err(e),
                Ok(n) => Ok(names.push(n@)),
            },
        }
    }
}

/// The table that holds, for each name, the reference that came with it
/// last.
pub open spec fn filled(names: Seq<Seq<char>>, refs: Seq<usize>) -> Map<Seq<char>, usize>
    decreases names.len(),
{
    if names.len() == 0 || refs.len() == 0 {
        Map::empty()
    } else {
        filled(names.drop_last(), refs.drop_last()).insert(names.last(), refs.last())
    }
}

/// The two tables of a registry.
pub struct Tables {
    /// Composable operators: name to creator reference.
    pub creators: Map<Seq<char>, usize>,
    /// All operators: name to engine-internal handle.
    pub op_handles: Map<Seq<char>, usize>,
}

/// The registry that the engine's listings amount to. `creators` and
/// `op_names` are what the engine listed; `infos` holds the description of
/// each creator and `handles` the handle of each name, in the same order. A
/// reply that failed is the error of the whole; a listing without its
/// replies is no listing.
pub open spec fn spec_new(
    creators: Seq<usize>,
    infos: Seq<EngineReply>,
    op_names: Seq<Seq<char>>,
    handles: Seq<EngineReply>,
) -> Result<Tables, Error> {
    match read_names(infos) {
        Err(e) => Err(e),
        Ok(names) => if names.len() != creators.len() {
            Err(Error::UnexpectedReply)
        } else {
            match read_handles(handles) {
                Err(e) => Err(e),
                Ok(hs) => if hs.len() != op_names.len() {
                    Err(Error::UnexpectedReply)
                } else {
                    Ok(Tables { creators: filled(names, creators), op_handles: filled(op_names, hs) })
                },
            }
        },
    }
}

/// The reference under which an operator is invoked: its creator reference
/// where it is composable, else its engine-internal handle.
pub open spec fn symbol_creator(tables: Tables, name: Seq<char>) -> Option<usize> {
    if tables.creators.contains_key(name) {
        Some(tables.creators[name])
    } else if tables.op_handles.contains_key(name) {
        Some(tables.op_handles[name])
    } else {
        None
    }
}

/// The operators of the engine, by name.
pub struct OpMap {
    symbol_creators: Dict<usize>,
    op_handles: Dict<usize>,
}

impl View for OpMap {
    type V = Tables;

    closed spec fn view(&self) -> Tables {
        Tables { creators: self.symbol_creators.map(), op_handles: self.op_handles.map() }
    }
}

/// Reads the handle out of each reply, up to the first that has none.
pub fn collect_handles(replies: &Vec<EngineReply>) -> (outcome: Result<Vec<usize>, Error>)
    ensures
        match outcome {
            Ok(handles) => read_handles(replies@) == Ok::<Seq<usize>, Error>(handles@),
            Err(e) => read_handles(replies@) == Err::<Seq<usize>, Error>(e),
        },
{
    let mut handles: Vec<usize> = Vec::new();
    let mut i: usize = 0;
    assert(replies@.take(0) =~= Seq::<EngineReply>::empty());
    while i < replies.len()
        invariant
            i <= replies@.len(),
            read_handles(replies@.take(i as int)) == Ok::<Seq<usize>, Error>(handles@),
        decreases replies@.len() - i,
    {
        let ghost next = replies@.take(i + 1);
        assert(next.drop_last() =~= replies@.take(i as int));
        assert(next.last() == replies@[i as int]);
        match replies[i].handle() {
            Err(e) => {
                proof {
                    lemma_read_handles_error(replies@, i + 1);
                }
                return Err(e);
            },
            Ok(h) => {
                handles.push(h);
            },
        }
        i += 1;
    }
    assert(replies@.take(i as int) =~= replies@);
    Ok(handles)
}

/// An error among the first replies is the error of all of them.
pub proof fn lemma_read_handles_error(replies: Seq<EngineReply>, n: int)
    requires
        0 <= n <= replies.len(),
        read_handles(replies.take(n)) is Err,
    ensures
        read_handles(replies) == read_handles(replies.take(n)),
    decreases replies.len() - n,
{
    if n < replies.len() {
        let longer = replies.take(n + 1);
        assert(longer.drop_last() =~= replies.take(n));
        lemma_read_handles_error(replies, n + 1);
    } else {
        assert(replies.take(n) =~= replies);
    }
}

/// An error among the first descriptions is the error of all of them.
pub proof fn lemma_read_names_error(replies: Seq<EngineReply>, n: int)
    requires
        0 <= n <= replies.len(),
        read_names(replies.take(n)) is Err,
    ensures
        read_names(replies) == read_names(replies.take(n)),
    decreases replies.len() - n,
{
    if n < replies.len() {
        let longer = replies.take(n + 1);
        assert(longer.drop_last() =~= replies.take(n));
        lemma_read_names_error(replies, n + 1);
    } else {
        assert(replies.take(n) =~= replies);
    }
}

/// Reads the creator name out of each description, up to the first reply
/// that has none.
pub fn collect_names(replies: &Vec<EngineReply>) -> (outcome: Result<Vec<String>, Error>)
    ensures
        match outcome {
            Ok(names) => read_names(replies@) == Ok::<Seq<Seq<char>>, Error>(texts(names@)),
            Err(e) => read_names(replies@) == Err::<Seq<Seq<char>>, Error>(e),
        },
{
    let mut names: Vec<String> = Vec::new();
    let mut i: usize = 0;
    assert(replies@.take(0) =~= Seq::<EngineReply>::empty());
    assert(texts(names@) =~= Seq::<Seq<char>>::empty());
    while i < replies.len()
        invariant
            i <= replies@.len(),
            read_names(replies@.take(i as int)) == Ok::<Seq<Seq<char>>, Error>(texts(names@)),
        decreases replies@.len() - i,
    {
        let ghost next = replies@.take(i + 1);
        let ghost before = texts(names@);
        assert(next.drop_last() =~= replies@.take(i as int));
        assert(next.last() == replies@[i as int]);
        match replies[i].info_name() {
            Err(e) => {
                proof {
                    lemma_read_names_error(replies@, i + 1);
                }
                return Err(e);
            },
            Ok(n) => {
                names.push(n);
                assert(texts(names@) =~= before.push(n@));
            },
        }
        i += 1;
    }
    assert(replies@.take(i as int) =~= replies@);
    Ok(names)
}

/// Fills a table with the references, each under its name, in order.
fn fill(names: &Vec<String>, refs: &Vec<usize>) -> (table: Dict<usize>)
    requires
        names@.len() == refs@.len(),
    ensures
        table.wf(),
        table.map() == filled(texts(names@), refs@),
{
    let mut table: Dict<usize> = Dict::new();
    let mut i: usize = 0;
    assert(texts(names@).take(0) =~= Seq::<Seq<char>>::empty());
    assert(table.map() =~= Map::<Seq<char>, usize>::empty());
    while i < names.len()
        invariant
            i <= names@.len(),
            names@.len() == refs@.len(),
            table.wf(),
            table.map() == filled(texts(names@).take(i as int), refs@.take(i as int)),
        decreases names@.len() - i,
    {
        proof {
            table.lemma_wf();
            lemma_put_is_insert(table.keys(), table.values(), names@[i as int]@, refs@[i as int]);
            let n1 = texts(names@).take(i + 1);
            let r1 = refs@.take(i + 1);
            assert(n1.drop_last() =~= texts(names@).take(i as int));
            assert(r1.drop_last() =~= refs@.take(i as int));
            assert(n1.last() == names@[i as int]@);
            assert(r1.last() == refs@[i as int]);
        }
        table.insert(names[i].clone(), refs[i]);
        i += 1;
    }
    assert(texts(names@).take(i as int) =~= texts(names@));
    assert(refs@.take(i as int) =~= refs@);
    table
}

impl OpMap {
    /// Both tables are well-formed dictionaries.
    pub closed spec fn wf(&self) -> bool {
        self.symbol_creators.wf() && self.op_handles.wf()
    }

    /// The call that lists the creator references of the composable
    /// operators.
    pub fn list_creators_call() -> (call: EngineCall)
        ensures
            call@ == CallView::ListAtomicSymbolCreators,
    {
        EngineCall::ListAtomicSymbolCreators
    }

    /// The call that describes the creator `creator`.
    pub fn describe_call(creator: usize) -> (call: EngineCall)
        ensures
            call@ == (CallView::GetAtomicSymbolInfo { creator }),
    {
        EngineCall::GetAtomicSymbolInfo { creator }
    }

    /// The call that lists the names of all operators.
    pub fn list_names_call() -> (call: EngineCall)
        ensures
            call@ == CallView::ListAllOpNames,
    {
        EngineCall::ListAllOpNames
    }

    /// The call that asks for the engine-internal handle of the operator
    /// `name`.
    pub fn op_handle_call(name: &str) -> (call: EngineCall)
        ensures
            call@ == (CallView::GetOpHandle { name: name@ }),
    {
        EngineCall::GetOpHandle { name: name.to_owned() }
    }

    /// Builds the registry from the engine's two listings and the replies to
    /// the calls made for their entries: `infos[i]` describes `creators[i]`,
    /// and `handles[i]` answers for `op_names[i]`.
    pub fn new(
        creators: &Vec<usize>,
        infos: &Vec<EngineReply>,
        op_names: &Vec<String>,
        handles: &Vec<EngineReply>,
    ) -> (outcome: Result<OpMap, Error>)
        ensures
            match outcome {
                Ok(op_map) => op_map.wf() && spec_new(
                    creators@,
                    infos@,
                    texts(op_names@),
                    handles@,
                ) == Ok::<Tables, Error>(op_map@),
                Err(e) => spec_new(creators@, infos@, texts(op_names@), handles@) == Err::<
                    Tables,
                    Error,
                >(e),
            },
    {
        let names = match collect_names(infos) {
            Err(e) => { return Err(e); },
            Ok(names) => names,
        };
        if names.len() != creators.len() {
            return Err(Error::UnexpectedReply);
        }
        let hs = match collect_handles(handles) {
            Err(e) => { return Err(e); },
            Ok(hs) => hs,
        };
        if hs.len() != op_names.len() {
            return Err(Error::UnexpectedReply);
        }
        let symbol_creators = fill(&names, creators);
        let op_handles = fill(op_names, &hs);
        Ok(OpMap { symbol_creators, op_handles })
    }

    /// The engine-internal handle of the operator `name`. An unknown name is
    /// an error that carries the name.
    pub fn get_op_handle(&self, name: &str) -> (outcome: Result<usize, Error>)
        requires
            self.wf(),
        ensures
            match outcome {
                Ok(handle) => self@.op_handles.contains_key(name@) && self@.op_handles[name@]
                    == handle,
                Err(e) => !self@.op_handles.contains_key(name@) && e.is_unknown_operator(name@),
            },
    {
        match self.op_handles.get(name) {
            Some(handle) => Ok(*handle),
            None => Err(Error::UnknownOperator { name: name.to_owned() }),
        }
    }

    /// The reference under which the operator `name` is invoked: its creator
    /// reference where it is composable, else its engine-internal handle. A
    /// name in neither table is an error that carries the name.
    pub fn get_symbol_creator(&self, name: &str) -> (outcome: Result<usize, Error>)
        requires
            self.wf(),
        ensures
            found(self@, name@, outcome),
    {
        match self.symbol_creators.get(name) {
            Some(creator) => Ok(*creator),
            None => self.get_op_handle(name),
        }
    }
}

/// Whether `outcome` is what looking the operator `name` up in `tables`
/// comes to: the reference of the name, or the error that carries the name.
pub open spec fn found(tables: Tables, name: Seq<char>, outcome: Result<usize, Error>) -> bool {
    match outcome {
        Ok(creator) => symbol_creator(tables, name) == Some(creator),
        Err(e) => symbol_creator(tables, name) == None::<usize> && e.is_unknown_operator(name),
    }
}

/// Lookups are stable: however often a name is looked up in a registry,
/// the outcome is the same. Two lookups of one name either both give the
/// same reference, or both fail with the error that names the operator.
pub proof fn lemma_lookups_agree(
    tables: Tables,
    name: Seq<char>,
    first: Result<usize, Error>,
    second: Result<usize, Error>,
)
    requires
        found(tables, name, first),
        found(tables, name, second),
    ensures
        first is Ok <==> second is Ok,
        first is Ok ==> first == second,
        first matches Err(e) ==> e.spec_message() == "unknown operator: "@ + name,
        first is Err ==> first->Err_0.spec_message() == second->Err_0.spec_message(),
{
}

/// A name that is known under neither table is reported by name: the text of
/// the error ends with it.
pub proof fn lemma_unknown_operator_names_it(e: Error, name: Seq<char>)
    requires
        e.is_unknown_operator(name),
    ensures
        e.spec_message() == "unknown operator: "@ + name,
        e.spec_message().len() >= name.len(),
        e.spec_message().subrange(e.spec_message().len() - name.len(), e.spec_message().len() as int)
            == name,
{
    let prefix = "unknown operator: "@;
    assert((prefix + name).subrange((prefix + name).len() - name.len(), (prefix + name).len() as int)
        =~= name);
}

} // verus!
