//! What a contract's dispatcher does with a request: find the operation, take
//! the arguments out of the encoded parameters, call the implementation.

use crate::directory::{lemma_position_first, lookup};
use crate::error::{reply, Fault, FaultView, ServiceError};
use crate::model::{
    distinct_names, well_formed, Operation, OperationArgumentView, OperationView,
    ServiceContractModel, ServiceContractModelView,
};
use crate::proxy::{CallbackSlot, Forwarder, ProxyView};
use crate::types::{conforms, is_of_type};
use crate::value::{views, Tree, TreeView};
use std::rc::Rc;
use vstd::prelude::*;
use vstd::string::StringExecFns;

verus! {

/// The index of the first operation at or after `from` that is called `name`.
pub open spec fn operation_index(operations: Seq<OperationView>, name: Seq<char>, from: int) -> Option<
    int,
>
    decreases operations.len() - from,
{
    if from < 0 || from >= operations.len() {
        None
    } else if operations[from].name == name {
        Some(from)
    } else {
        operation_index(operations, name, from + 1)
    }
}

/// Whether `fields` hold a value of its type for `argument`.
pub open spec fn holds_argument(
    argument: OperationArgumentView,
    fields: Seq<(Seq<char>, TreeView)>,
) -> bool {
    lookup(fields, argument.name) matches Some(value) && conforms(argument.ty, value)
}

/// The index of the first argument at or after `from` for which `fields` hold
/// no value of its type.
pub open spec fn first_fault(
    args: Seq<OperationArgumentView>,
    fields: Seq<(Seq<char>, TreeView)>,
    from: int,
) -> Option<int>
    decreases args.len() - from,
{
    if from < 0 || from >= args.len() {
        None
    } else if !holds_argument(args[from], fields) {
        Some(from)
    } else {
        first_fault(args, fields, from + 1)
    }
}

/// The index of the first of `values` at or after `from` that is not of the
/// type of the argument in its place.
pub open spec fn first_misfit(
    args: Seq<OperationArgumentView>,
    values: Seq<TreeView>,
    from: int,
) -> Option<int>
    decreases args.len() - from,
{
    if from < 0 || from >= args.len() {
        None
    } else if !conforms(args[from].ty, values[from]) {
        Some(from)
    } else {
        first_misfit(args, values, from + 1)
    }
}

/// The description of parameters that are no record.
pub open spec fn not_a_record() -> Seq<char> {
    "expected a record of arguments"@
}

/// The description of a wrong number of arguments.
pub open spec fn wrong_arity() -> Seq<char> {
    "wrong number of arguments"@
}

/// The description of an argument that is missing.
pub open spec fn missing_argument(name: Seq<char>) -> Seq<char> {
    "missing argument "@ + name
}

/// The description of an argument whose value is not of its type.
pub open spec fn invalid_argument(name: Seq<char>) -> Seq<char> {
    "invalid type for argument "@ + name
}

/// The description of a result that is not of the declared return type.
pub open spec fn invalid_result() -> Seq<char> {
    "invalid type for result"@
}

/// The values of `args`, in declared order, that the encoded `params` hold:
/// `params` is a record with as many fields as there are arguments, and each
/// argument is found in it by its name, with a value of its type. The first
/// argument that is not decides the error.
pub open spec fn unpack(args: Seq<OperationArgumentView>, params: TreeView) -> Result<
    Seq<TreeView>,
    FaultView,
> {
    match params {
        TreeView::Record(fields) => if fields.len() != args.len() {
            Err(FaultView::DecodeError(wrong_arity()))
        } else {
            match first_fault(args, fields, 0) {
                Some(k) => if lookup(fields, args[k].name) is None {
                    Err(FaultView::DecodeError(missing_argument(args[k].name)))
                } else {
                    Err(FaultView::DecodeError(invalid_argument(args[k].name)))
                },
                None => Ok(Seq::new(args.len(), |i: int| lookup(fields, args[i].name)->Some_0)),
            }
        },
        _ => Err(FaultView::DecodeError(not_a_record())),
    }
}

/// The record that encodes `values` as the arguments `args`: one field for
/// each argument, under its declared name, in declared order.
pub open spec fn pack(args: Seq<OperationArgumentView>, values: Seq<TreeView>) -> TreeView {
    TreeView::Record(Seq::new(args.len(), |i: int| (args[i].name, values[i])))
}

/// The record that a proxy sends for `values` as the arguments `args`, where
/// there is one value for each argument and each is of its argument's type.
pub open spec fn encode(args: Seq<OperationArgumentView>, values: Seq<TreeView>) -> Result<
    TreeView,
    FaultView,
> {
    if values.len() != args.len() {
        Err(FaultView::EncodeError(wrong_arity()))
    } else {
        match first_misfit(args, values, 0) {
            Some(k) => Err(FaultView::EncodeError(invalid_argument(args[k].name))),
            None => Ok(pack(args, values)),
        }
    }
}

/// What becomes of an answer that is declared to be of the type `ty`: a
/// value that is not of that type is an error.
pub open spec fn checked(ty: Seq<char>, answer: Result<TreeView, Seq<char>>) -> Result<
    TreeView,
    Seq<char>,
> {
    match answer {
        Ok(value) => if conforms(ty, value) {
            Ok(value)
        } else {
            Err(invalid_result())
        },
        Err(e) => Err(e),
    }
}

/// A call as the dispatcher hands it to the implementation.
#[derive(Debug, PartialEq, Eq)]
pub struct Invocation {
    /// The operation's place in the contract.
    pub operation: usize,
    /// The arguments in declared order.
    pub arguments: Vec<Tree>,
}

/// The mathematical value of an `Invocation`.
pub struct InvocationView {
    pub operation: int,
    pub arguments: Seq<TreeView>,
}

impl View for Invocation {
    type V = InvocationView;

    open spec fn view(&self) -> InvocationView {
        InvocationView { operation: self.operation as int, arguments: views(self.arguments@) }
    }
}

/// What a request for `name` with the encoded `params` asks of `contract`: a
/// call of the first operation of that name with the arguments that `params`
/// hold, or the fault that the request ends in.
pub open spec fn plan(contract: ServiceContractModelView, name: Seq<char>, params: TreeView) -> Result<
    InvocationView,
    FaultView,
> {
    match operation_index(contract.operations, name, 0) {
        None => Err(FaultView::BadOperation),
        Some(i) => match unpack(contract.operations[i].args, params) {
            Err(fault) => Err(fault),
            Ok(arguments) => Ok(InvocationView { operation: i, arguments }),
        },
    }
}

/// What a proxy sends for a call of `name` with `values`: the record that
/// encodes them, where the contract has the operation and the operation
/// takes them.
pub open spec fn outgoing(
    contract: ServiceContractModelView,
    name: Seq<char>,
    values: Seq<TreeView>,
) -> Result<TreeView, FaultView> {
    match operation_index(contract.operations, name, 0) {
        None => Err(FaultView::BadOperation),
        Some(i) => encode(contract.operations[i].args, values),
    }
}

/// Whether `result` is what serving a request for `name` with the encoded
/// `params` on `target` may give while the call's slot holds `callback`: the
/// description of the fault in which the request ends before the
/// implementation is called, or an answer of the implementation to the
/// decoded arguments, given with that proxy in the slot and checked against
/// the operation's declared return type.
pub open spec fn served<T: InvokeTarget>(
    contract: ServiceContractModelView,
    target: &T,
    callback: Option<ProxyView>,
    name: Seq<char>,
    params: TreeView,
    result: Result<TreeView, Seq<char>>,
) -> bool {
    match plan(contract, name, params) {
        Err(fault) => result == Err::<TreeView, Seq<char>>(fault.description()),
        Ok(invocation) => exists|answer: Result<TreeView, Seq<char>>|
            #[trigger] target.answers(
                contract.operations[invocation.operation].name,
                invocation.arguments,
                callback,
                answer,
            ) && result == checked(contract.operations[invocation.operation].output, answer),
    }
}

/// An index that `operation_index` finds lies in range, at or after `from`,
/// holds the name, and nothing between `from` and it does.
pub proof fn lemma_operation_index(operations: Seq<OperationView>, name: Seq<char>, from: int)
    requires
        0 <= from,
    ensures
        match operation_index(operations, name, from) {
            Some(i) => from <= i < operations.len() && operations[i].name == name && forall|j: int|
                from <= j < i ==> operations[j].name != name,
            None => forall|j: int| from <= j < operations.len() ==> operations[j].name != name,
        },
    decreases operations.len() - from,
{
    if from < operations.len() && operations[from].name != name {
        lemma_operation_index(operations, name, from + 1);
    }
}

/// Where `fields` hold a value of its type for every argument from `from`
/// on, none is at fault.
pub proof fn lemma_no_fault(
    args: Seq<OperationArgumentView>,
    fields: Seq<(Seq<char>, TreeView)>,
    from: int,
)
    requires
        0 <= from,
        forall|i: int| from <= i < args.len() ==> holds_argument(#[trigger] args[i], fields),
    ensures
        first_fault(args, fields, from) is None,
    decreases args.len() - from,
{
    if from < args.len() {
        lemma_no_fault(args, fields, from + 1);
    }
}

/// Where `first_misfit` finds nothing, every value from `from` on is of its
/// argument's type; what it finds is within range and does not fit.
pub proof fn lemma_first_misfit(
    args: Seq<OperationArgumentView>,
    values: Seq<TreeView>,
    from: int,
)
    requires
        0 <= from,
    ensures
        match first_misfit(args, values, from) {
            Some(k) => from <= k < args.len() && !conforms(args[k].ty, values[k]),
            None => forall|i: int| from <= i < args.len() ==> conforms(args[i].ty, values[i]),
        },
    decreases args.len() - from,
{
    if from < args.len() && conforms(args[from].ty, values[from]) {
        lemma_first_misfit(args, values, from + 1);
    }
}

/// Arguments that a proxy packs come out of the dispatcher as they went in:
/// whenever no two arguments of the operation share a name, what `encode`
/// makes of the values unpacks to the values.
pub proof fn lemma_pack_unpack(args: Seq<OperationArgumentView>, values: Seq<TreeView>)
    requires
        distinct_names(args),
        encode(args, values) is Ok,
    ensures
        unpack(args, encode(args, values)->Ok_0) == Ok::<Seq<TreeView>, FaultView>(values),
{
    let fields = Seq::new(args.len(), |i: int| (args[i].name, values[i]));
    lemma_first_misfit(args, values, 0);
    assert forall|i: int| 0 <= i < args.len() implies #[trigger] lookup(fields, args[i].name)
        == Some(values[i]) by {
        lemma_position_first(fields, args[i].name, 0, i);
    }
    assert forall|i: int| 0 <= i < args.len() implies holds_argument(#[trigger] args[i], fields) by {
        assert(lookup(fields, args[i].name) == Some(values[i]));
    }
    lemma_no_fault(args, fields, 0);
    let unpacked = Seq::new(args.len(), |i: int| lookup(fields, args[i].name)->Some_0);
    assert(unpacked =~= values);
}

/// A call that a proxy of a contract sends reaches the dispatcher of the same
/// contract as the call that was made: the same operation, the same
/// arguments. This holds of every operation whose arguments have distinct
/// names, whatever it is called with.
pub proof fn lemma_round_trip(
    contract: ServiceContractModelView,
    name: Seq<char>,
    values: Seq<TreeView>,
)
    requires
        operation_index(contract.operations, name, 0) matches Some(i) && distinct_names(
            contract.operations[i].args,
        ),
        outgoing(contract, name, values) is Ok,
    ensures
        plan(contract, name, outgoing(contract, name, values)->Ok_0) == Ok::<
            InvocationView,
            FaultView,
        >(
            InvocationView {
                operation: operation_index(contract.operations, name, 0)->Some_0,
                arguments: values,
            },
        ),
{
    let i = operation_index(contract.operations, name, 0)->Some_0;
    lemma_pack_unpack(contract.operations[i].args, values);
}

/// Whatever a proxy of a well-formed contract sends, the dispatcher of the
/// same contract decodes to the call that was made.
pub proof fn lemma_round_trip_of_contract(
    contract: ServiceContractModelView,
    name: Seq<char>,
    values: Seq<TreeView>,
)
    requires
        well_formed(contract),
        outgoing(contract, name, values) is Ok,
    ensures
        plan(contract, name, outgoing(contract, name, values)->Ok_0) == Ok::<
            InvocationView,
            FaultView,
        >(
            InvocationView {
                operation: operation_index(contract.operations, name, 0)->Some_0,
                arguments: values,
            },
        ),
{
    lemma_operation_index(contract.operations, name, 0);
    lemma_round_trip(contract, name, values);
}

/// A request for a name that the contract does not have ends in
/// `BadOperation`, whatever its parameters.
pub proof fn lemma_unknown_operation(
    contract: ServiceContractModelView,
    name: Seq<char>,
    params: TreeView,
)
    requires
        forall|i: int| 0 <= i < contract.operations.len() ==> contract.operations[i].name != name,
    ensures
        plan(contract, name, params) == Err::<InvocationView, FaultView>(
            FaultView::BadOperation,
        ),
        FaultView::BadOperation.description() == "Bad fn"@,
{
    lemma_operation_index(contract.operations, name, 0);
}

impl Operation {
    /// The values of this operation's arguments, in declared order, that the
    /// encoded `params` hold.
    pub fn unpack(&self, params: &Tree) -> (r: Result<Vec<Tree>, Fault>)
        ensures
            match unpack(self@.args, params@) {
                Ok(values) => r matches Ok(v) && views(v@) == values,
                Err(fault) => r matches Err(f) && f@ == fault,
            },
    {
        match params {
            Tree::Record(fields) => {
                if fields.len() != self.args.len() {
                    return Err(Fault::DecodeError("wrong number of arguments".to_owned()));
                }
                let ghost args = self@.args;
                let ghost held = params@->Record_0;
                let mut values: Vec<Tree> = Vec::new();
                let mut i: usize = 0;
                while i < self.args.len()
                    invariant
                        i <= self.args.len(),
                        args == self@.args,
                        args.len() == self.args.len(),
                        params@ == TreeView::Record(held),
                        held.len() == args.len(),
                        values.len() == i,
                        first_fault(args, held, 0) == first_fault(args, held, i as int),
                        forall|j: int|
                            0 <= j < i ==> lookup(held, args[j].name) == Some(#[trigger] values@[j]@),
                    decreases self.args.len() - i,
                {
                    assert(args[i as int] == self.args@[i as int]@);
                    match params.field(self.args[i].name.as_str()) {
                        Some(value) => {
                            if !is_of_type(&self.args[i].ty, value) {
                                assert(first_fault(args, held, i as int) == Some(i as int));
                                return Err(
                                    Fault::DecodeError(
                                        "invalid type for argument ".to_owned().concat(
                                            self.args[i].name.as_str(),
                                        ),
                                    ),
                                );
                            }
                            values.push(value.duplicate());
                        },
                        None => {
                            assert(first_fault(args, held, i as int) == Some(i as int));
                            return Err(
                                Fault::DecodeError(
                                    "missing argument ".to_owned().concat(
                                        self.args[i].name.as_str(),
                                    ),
                                ),
                            );
                        },
                    }
                    i = i + 1;
                }
                assert(views(values@) =~= unpack(args, params@)->Ok_0);
                Ok(values)
            },
            _ => Err(Fault::DecodeError("expected a record of arguments".to_owned())),
        }
    }

    /// The record that encodes `values` as this operation's arguments: there
    /// is one value for each argument, and each is of its argument's type.
    pub fn pack(&self, values: Vec<Tree>) -> (r: Result<Tree, Fault>)
        ensures
            match encode(self@.args, views(values@)) {
                Ok(params) => r matches Ok(t) && t@ == params,
                Err(fault) => r matches Err(f) && f@ == fault,
            },
    {
        if values.len() != self.args.len() {
            return Err(Fault::EncodeError("wrong number of arguments".to_owned()));
        }
        let ghost args = self@.args;
        let ghost wanted = views(values@);
        let count = self.args.len();
        let mut k: usize = 0;
        while k < count
            invariant
                k <= count,
                count == self.args.len(),
                args == self@.args,
                wanted == views(values@),
                values.len() == count,
                first_misfit(args, wanted, 0) == first_misfit(args, wanted, k as int),
            decreases count - k,
        {
            assert(args[k as int] == self.args@[k as int]@);
            if !is_of_type(&self.args[k].ty, &values[k]) {
                assert(first_misfit(args, wanted, k as int) == Some(k as int));
                return Err(
                    Fault::EncodeError(
                        "invalid type for argument ".to_owned().concat(self.args[k].name.as_str()),
                    ),
                );
            }
            k = k + 1;
        }
        let mut values = values;
        let mut fields: Vec<(String, Tree)> = Vec::new();
        let mut i: usize = count;
        while i > 0
            invariant
                i <= count,
                count == self.args.len(),
                values.len() == i,
                wanted.len() == count,
                forall|j: int| 0 <= j < i ==> values@[j]@ == wanted[j],
                fields.len() == count - i,
                forall|j: int|
                    0 <= j < fields.len() ==> (#[trigger] fields@[j]).0@ == self.args@[count - 1
                        - j].name@ && fields@[j].1@ == wanted[count - 1 - j],
            decreases i,
        {
            i = i - 1;
            let value = values.pop().unwrap();
            fields.push((self.args[i].name.clone(), value));
        }
        let mut ordered: Vec<(String, Tree)> = Vec::new();
        while fields.len() > 0
            invariant
                count == self.args.len(),
                wanted.len() == count,
                ordered.len() + fields.len() == count,
                forall|j: int|
                    0 <= j < fields.len() ==> (#[trigger] fields@[j]).0@ == self.args@[count - 1
                        - j].name@ && fields@[j].1@ == wanted[count - 1 - j],
                forall|j: int|
                    0 <= j < ordered.len() ==> (#[trigger] ordered@[j]).0@ == self.args@[j].name@
                        && ordered@[j].1@ == wanted[j],
            decreases fields.len(),
        {
            let field = fields.pop().unwrap();
            ordered.push(field);
        }
        let packed = Tree::Record(ordered);
        assert(packed@->Record_0 =~= pack(self@.args, wanted)->Record_0);
        Ok(packed)
    }

    /// What becomes of an answer to a call of this operation: a value that
    /// is not of the declared return type is an error.
    pub fn check(&self, answer: Result<Tree, ServiceError>) -> (r: Result<Tree, ServiceError>)
        ensures
            reply(r) == checked(self@.output, reply(answer)),
    {
        match answer {
            Ok(value) => {
                if is_of_type(&self.output, &value) {
                    Ok(value)
                } else {
                    Err(ServiceError::new("invalid type for result"))
                }
            },
            Err(e) => Err(e),
        }
    }
}

impl ServiceContractModel {
    /// The place of the first operation called `name`.
    pub fn resolve(&self, name: &str) -> (r: Option<usize>)
        ensures
            r matches Some(i) ==> i < self.operations.len() && operation_index(
                self@.operations,
                name@,
                0,
            ) == Some(i as int),
            r is None ==> operation_index(self@.operations, name@, 0) is None,
    {
        let wanted = name.to_owned();
        let mut i: usize = 0;
        while i < self.operations.len()
            invariant
                i <= self.operations.len(),
                wanted@ == name@,
                operation_index(self@.operations, name@, 0) == operation_index(
                    self@.operations,
                    name@,
                    i as int,
                ),
            decreases self.operations.len() - i,
        {
            assert(self@.operations[i as int] == self.operations@[i as int]@);
            if self.operations[i].name == wanted {
                return Some(i);
            }
            i = i + 1;
        }
        None
    }

    /// What a request for `name` with the encoded `params` asks of this
    /// contract.
    pub fn plan(&self, name: &str, params: &Tree) -> (r: Result<Invocation, Fault>)
        ensures
            reply(r) == plan(self@, name@, params@),
            r matches Ok(invocation) ==> invocation.operation < self.operations.len(),
    {
        match self.resolve(name) {
            None => Err(Fault::BadOperation),
            Some(i) => {
                assert(self@.operations[i as int] == self.operations@[i as int]@);
                match self.operations[i].unpack(params) {
                    Err(fault) => Err(fault),
                    Ok(arguments) => Ok(Invocation { operation: i, arguments }),
                }
            },
        }
    }
}

/// The implementation of a contract: what a dispatcher calls with the decoded
/// arguments of an operation.
pub trait InvokeTarget {
    /// Whether `result` is an answer of this implementation to a call of
    /// `operation` with `arguments`, made while the call's slot holds the
    /// proxy `callback`. An implementation that says nothing of itself
    /// accepts every answer.
    open spec fn answers(
        &self,
        operation: Seq<char>,
        arguments: Seq<TreeView>,
        callback: Option<ProxyView>,
        result: Result<TreeView, Seq<char>>,
    ) -> bool {
        true
    }

    /// Performs `operation` on `arguments`, which stand in declared order.
    /// During the call `callback` holds the proxy of the caller's callback
    /// contract. An `Err` is a result that could not be encoded.
    fn invoke<F: Forwarder>(
        &self,
        operation: &str,
        arguments: Vec<Tree>,
        callback: &CallbackSlot<F>,
    ) -> (r: Result<Tree, ServiceError>)
        requires
            callback.is_set(),
        ensures
            self.answers(operation@, views(arguments@), callback.proxy(), reply(r)),
    ;
}

/// The implementation of the unit contract, which has no operation: every
/// call of it ends in `Bad fn`.
impl InvokeTarget for () {
    open spec fn answers(
        &self,
        operation: Seq<char>,
        arguments: Seq<TreeView>,
        callback: Option<ProxyView>,
        result: Result<TreeView, Seq<char>>,
    ) -> bool {
        result == Err::<TreeView, Seq<char>>(FaultView::BadOperation.description())
    }

    fn invoke<F: Forwarder>(
        &self,
        operation: &str,
        arguments: Vec<Tree>,
        callback: &CallbackSlot<F>,
    ) -> (r: Result<Tree, ServiceError>) {
        Err(Fault::BadOperation.into_error())
    }
}

impl<B: InvokeTarget> InvokeTarget for Rc<B> {
    open spec fn answers(
        &self,
        operation: Seq<char>,
        arguments: Seq<TreeView>,
        callback: Option<ProxyView>,
        result: Result<TreeView, Seq<char>>,
    ) -> bool {
        (**self).answers(operation, arguments, callback, result)
    }

    fn invoke<F: Forwarder>(
        &self,
        operation: &str,
        arguments: Vec<Tree>,
        callback: &CallbackSlot<F>,
    ) -> (r: Result<Tree, ServiceError>) {
        (**self).invoke(operation, arguments, callback)
    }
}

impl<B: InvokeTarget> InvokeTarget for Box<B> {
    open spec fn answers(
        &self,
        operation: Seq<char>,
        arguments: Seq<TreeView>,
        callback: Option<ProxyView>,
        result: Result<TreeView, Seq<char>>,
    ) -> bool {
        (**self).answers(operation, arguments, callback, result)
    }

    fn invoke<F: Forwarder>(
        &self,
        operation: &str,
        arguments: Vec<Tree>,
        callback: &CallbackSlot<F>,
    ) -> (r: Result<Tree, ServiceError>) {
        (**self).invoke(operation, arguments, callback)
    }
}

/// Serves a request for `name` with the encoded `params` on `target`, which
/// finds its caller's callback in `callback` during the call. A name
/// that the contract does not have ends in `Bad fn`, parameters that do not
/// hold the operation's arguments in a decode error, and in neither case is
/// the implementation called. Otherwise the implementation's answer to the
/// decoded arguments is the result, unless it is no value of the declared
/// return type: that is an encode error.
pub fn dispatch<T: InvokeTarget, F: Forwarder>(
    contract: &ServiceContractModel,
    target: &T,
    name: &str,
    params: &Tree,
    callback: &CallbackSlot<F>,
) -> (r: Result<Tree, ServiceError>)
    requires
        callback.is_set(),
    ensures
        served(contract@, target, callback.proxy(), name@, params@, reply(r)),
{
    match contract.plan(name, params) {
        Err(fault) => Err(fault.into_error()),
        Ok(invocation) => {
            let operation = &contract.operations[invocation.operation];
            assert(contract@.operations[invocation.operation as int] == operation@);
            let ghost planned = invocation@;
            let answer = target.invoke(operation.name.as_str(), invocation.arguments, callback);
            let r = operation.check(answer);
            assert(target.answers(
                contract@.operations[planned.operation].name,
                planned.arguments,
                callback.proxy(),
                reply(answer),
            ) && reply(r) == checked(
                contract@.operations[planned.operation].output,
                reply(answer),
            ));
            r
        },
    }
}

} // verus!
