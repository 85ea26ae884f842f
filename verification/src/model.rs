//! The model of a contract: a name, its operations in order, and the contract
//! that the peer implements to be called back.

use crate::syntax::{
    binding_list, ident_list, parse_bindings, parse_idents, parse_struct, parse_trait,
    parsed_struct, parsed_trait, signature_arguments, signature_ident, signature_inputs,
    signature_name, signature_output, signature_result, struct_field_paths, struct_fields,
    struct_ident, struct_name, token_trees, tokens_of, trait_ident, trait_members, trait_name,
    trait_signatures, ArgumentDecl, ArgumentDeclView, DelimiterDecl, TokenDecl, TokenDeclView,
};
use crate::value::views;
use vstd::prelude::*;
use vstd::string::StringExecFns;

verus! {

/// Why a declaration is no contract.
#[derive(Debug, Clone, Copy, PartialEq, Eq, Structural)]
pub enum ServiceContractError {
    /// The declaration is no trait, its annotation is malformed, or one of its
    /// methods does not take `self` first and only there.
    BadItem,
    /// An argument of a method is not a single name with a type.
    BadArgument,
}

/// One argument of an operation.
#[derive(Debug, PartialEq, Eq)]
pub struct OperationArgument {
    pub name: String,
    /// The argument's type, as source text.
    pub ty: String,
}

/// The mathematical value of an `OperationArgument`.
pub struct OperationArgumentView {
    pub name: Seq<char>,
    pub ty: Seq<char>,
}

impl View for OperationArgument {
    type V = OperationArgumentView;

    open spec fn view(&self) -> OperationArgumentView {
        OperationArgumentView { name: self.name@, ty: self.ty@ }
    }
}

/// One operation of a contract.
#[derive(Debug, PartialEq, Eq)]
pub struct Operation {
    pub name: String,
    /// The arguments in declared order, the receiver left out.
    pub args: Vec<OperationArgument>,
    /// The return type, as source text; the unit type where none is declared.
    pub output: String,
}

/// The mathematical value of an `Operation`.
pub struct OperationView {
    pub name: Seq<char>,
    pub args: Seq<OperationArgumentView>,
    pub output: Seq<char>,
}

impl View for Operation {
    type V = OperationView;

    open spec fn view(&self) -> OperationView {
        OperationView { name: self.name@, args: views(self.args@), output: self.output@ }
    }
}

/// A contract: a named interface.
#[derive(Debug, PartialEq, Eq)]
pub struct ServiceContractModel {
    pub name: String,
    /// The contract that the peer implements to receive callbacks, as source
    /// text; the unit type where there is none.
    pub callback_interface: String,
    /// The name of the module that holds what belongs to the contract.
    pub mod_ident: String,
    pub operations: Vec<Operation>,
}

/// The mathematical value of a `ServiceContractModel`.
pub struct ServiceContractModelView {
    pub name: Seq<char>,
    pub callback_interface: Seq<char>,
    pub mod_ident: Seq<char>,
    pub operations: Seq<OperationView>,
}

impl View for ServiceContractModel {
    type V = ServiceContractModelView;

    open spec fn view(&self) -> ServiceContractModelView {
        ServiceContractModelView {
            name: self.name@,
            callback_interface: self.callback_interface@,
            mod_ident: self.mod_ident@,
            operations: views(self.operations@),
        }
    }
}

/// A method as a trait declares it.
#[derive(Debug, PartialEq, Eq)]
pub struct MethodDecl {
    pub name: String,
    /// The arguments as written, the receiver included.
    pub inputs: Vec<ArgumentDecl>,
    /// The return type as source text, where one is written.
    pub output: Option<String>,
}

/// The mathematical value of a `MethodDecl`.
pub struct MethodDeclView {
    pub name: Seq<char>,
    pub inputs: Seq<ArgumentDeclView>,
    pub output: Option<Seq<char>>,
}

impl View for MethodDecl {
    type V = MethodDeclView;

    open spec fn view(&self) -> MethodDeclView {
        MethodDeclView {
            name: self.name@,
            inputs: views(self.inputs@),
            output: match self.output {
                Some(t) => Some(t@),
                None => None,
            },
        }
    }
}

/// A trait as declared: its name and its methods in order.
#[derive(Debug, PartialEq, Eq)]
pub struct TraitDecl {
    pub name: String,
    pub methods: Vec<MethodDecl>,
}

/// The mathematical value of a `TraitDecl`.
pub struct TraitDeclView {
    pub name: Seq<char>,
    pub methods: Seq<MethodDeclView>,
}

impl View for TraitDecl {
    type V = TraitDeclView;

    open spec fn view(&self) -> TraitDeclView {
        TraitDeclView { name: self.name@, methods: views(self.methods@) }
    }
}

/// No two of `args` have one name.
pub open spec fn distinct_names(args: Seq<OperationArgumentView>) -> bool {
    forall|i: int, j: int| 0 <= i < j < args.len() ==> args[i].name != args[j].name
}

/// No two of `operations` have one name.
pub open spec fn distinct_operations(operations: Seq<OperationView>) -> bool {
    forall|i: int, j: int|
        0 <= i < j < operations.len() ==> operations[i].name != operations[j].name
}

/// Whether a contract is one that a trait can declare: no two of its
/// operations have one name, and no two arguments of an operation have.
pub open spec fn well_formed(contract: ServiceContractModelView) -> bool {
    &&& distinct_operations(contract.operations)
    &&& forall|i: int|
        0 <= i < contract.operations.len() ==> distinct_names(
            (#[trigger] contract.operations[i]).args,
        )
}

/// No two of `names` are the same.
pub open spec fn distinct_texts(names: Seq<Seq<char>>) -> bool {
    forall|i: int, j: int| 0 <= i < j < names.len() ==> names[i] != names[j]
}

/// A result with the view of what it holds on success.
pub open spec fn outcome<T: View, E>(r: Result<T, E>) -> Result<T::V, E> {
    match r {
        Ok(t) => Ok(t@),
        Err(e) => Err(e),
    }
}

/// The unit type, as source text.
pub open spec fn unit_type() -> Seq<char> {
    "( )"@
}

/// What is put behind a contract's name to name its module.
pub open spec fn module_suffix() -> Seq<char> {
    "_impl_mod"@
}

/// The one name that a contract's annotation may set.
pub open spec fn callback_key() -> Seq<char> {
    "callback"@
}

/// The unit contract: it is called as the unit type is, has no operation,
/// and its callback contract is the unit contract again.
pub open spec fn unit_model() -> ServiceContractModelView {
    ServiceContractModelView {
        name: unit_type(),
        callback_interface: unit_type(),
        mod_ident: unit_type() + module_suffix(),
        operations: Seq::empty(),
    }
}

/// Whether an argument is the receiver.
pub open spec fn is_receiver(decl: ArgumentDeclView) -> bool {
    decl is SelfRef || decl is SelfValue
}

/// The argument that `decl` declares: a single name with a type declares
/// one, and nothing else does.
pub open spec fn argument_of(decl: ArgumentDeclView) -> Result<
    OperationArgumentView,
    ServiceContractError,
> {
    match decl {
        ArgumentDeclView::Captured { binding: Some(name), ty } => Ok(
            OperationArgumentView { name, ty },
        ),
        _ => Err(ServiceContractError::BadArgument),
    }
}

/// The argument that `decl` declares behind the receiver of a method. A
/// second receiver makes the method no operation.
pub open spec fn trailing_argument_of(decl: ArgumentDeclView) -> Result<
    OperationArgumentView,
    ServiceContractError,
> {
    if is_receiver(decl) {
        Err(ServiceContractError::BadItem)
    } else {
        argument_of(decl)
    }
}

/// The arguments that `inputs[from..to]` declare behind the receiver, or the
/// error of the first among them that declares none.
pub open spec fn arguments_among(inputs: Seq<ArgumentDeclView>, from: int, to: int) -> Result<
    Seq<OperationArgumentView>,
    ServiceContractError,
>
    decreases to - from,
{
    if to <= from {
        Ok(Seq::empty())
    } else {
        match arguments_among(inputs, from, to - 1) {
            Err(e) => Err(e),
            Ok(args) => match trailing_argument_of(inputs[to - 1]) {
                Ok(a) => Ok(args.push(a)),
                Err(e) => Err(e),
            },
        }
    }
}

/// The operation that `method` declares. The receiver stands first and
/// nowhere else, else the method is a bad item; every other argument is a
/// single name with a type, else it is a bad argument. The first input at
/// fault decides.
pub open spec fn operation_of(method: MethodDeclView) -> Result<OperationView, ServiceContractError> {
    if method.inputs.len() == 0 || !is_receiver(method.inputs[0]) {
        Err(ServiceContractError::BadItem)
    } else {
        match arguments_among(method.inputs, 1, method.inputs.len() as int) {
            Err(e) => Err(e),
            Ok(args) => Ok(
                OperationView {
                    name: method.name,
                    args,
                    output: match method.output {
                        Some(t) => t,
                        None => unit_type(),
                    },
                },
            ),
        }
    }
}

/// The operations that the first `to` of `methods` declare, or the error of
/// the first among them that declares none.
pub open spec fn operations_among(methods: Seq<MethodDeclView>, to: int) -> Result<
    Seq<OperationView>,
    ServiceContractError,
>
    decreases to,
{
    if to <= 0 {
        Ok(Seq::empty())
    } else {
        match operations_among(methods, to - 1) {
            Err(e) => Err(e),
            Ok(ops) => match operation_of(methods[to - 1]) {
                Ok(o) => Ok(ops.push(o)),
                Err(e) => Err(e),
            },
        }
    }
}

/// The contract that `declaration` declares, with `callback` as its callback
/// contract.
pub open spec fn model_of(callback: Seq<char>, declaration: TraitDeclView) -> Result<
    ServiceContractModelView,
    ServiceContractError,
> {
    match operations_among(declaration.methods, declaration.methods.len() as int) {
        Err(e) => Err(e),
        Ok(operations) => Ok(
            ServiceContractModelView {
                name: declaration.name,
                callback_interface: callback,
                mod_ident: declaration.name + module_suffix(),
                operations,
            },
        ),
    }
}

/// The callback contract that the settings of an annotation name: each
/// setting is called `callback`, and the last one counts.
pub open spec fn callback_of(settings: Seq<(Seq<char>, Seq<char>)>) -> Result<
    Seq<char>,
    ServiceContractError,
> {
    if exists|i: int| 0 <= i < settings.len() && settings[i].0 != callback_key() {
        Err(ServiceContractError::BadItem)
    } else if settings.len() == 0 {
        Ok(unit_type())
    } else {
        Ok(settings.last().1)
    }
}

/// The callback contract that the annotation `attribute` names: the unit type
/// where it is empty, else what its one parenthesised list of settings names.
pub open spec fn callback_in(attribute: Seq<char>) -> Result<Seq<char>, ServiceContractError> {
    match token_trees(attribute) {
        None => Err(ServiceContractError::BadItem),
        Some(tokens) => if tokens.len() == 0 {
            Ok(unit_type())
        } else if tokens.len() == 1 {
            match tokens[0] {
                TokenDeclView::Group(DelimiterDecl::Parenthesis, inner) => match binding_list(
                    inner,
                ) {
                    None => Err(ServiceContractError::BadItem),
                    Some(settings) => callback_of(settings),
                },
                _ => Err(ServiceContractError::BadItem),
            }
        } else {
            Err(ServiceContractError::BadItem)
        },
    }
}

/// The method that a signature declares.
pub open spec fn method_of(signature: syn::MethodSig) -> MethodDeclView {
    MethodDeclView {
        name: signature_ident(signature),
        inputs: signature_arguments(signature),
        output: signature_result(signature),
    }
}

/// The methods among the first `to` of `members`, in order.
pub open spec fn methods_among(members: Seq<Option<syn::MethodSig>>, to: int) -> Seq<MethodDeclView>
    decreases to,
{
    if to <= 0 {
        Seq::empty()
    } else {
        match members[to - 1] {
            Some(signature) => methods_among(members, to - 1).push(method_of(signature)),
            None => methods_among(members, to - 1),
        }
    }
}

/// The trait that the source text `tokens` declares, where it declares one.
pub open spec fn trait_declaration(tokens: Seq<char>) -> Option<TraitDeclView> {
    match parsed_trait(tokens) {
        None => None,
        Some(item) => Some(
            TraitDeclView {
                name: trait_ident(item),
                methods: methods_among(trait_members(item), trait_members(item).len() as int),
            },
        ),
    }
}

/// The contract that the source text `tokens` declares under the annotation
/// `attribute`.
pub open spec fn contract_of(attribute: Seq<char>, tokens: Seq<char>) -> Result<
    ServiceContractModelView,
    ServiceContractError,
> {
    match callback_in(attribute) {
        Err(e) => Err(e),
        Ok(callback) => match trait_declaration(tokens) {
            None => Err(ServiceContractError::BadItem),
            Some(declaration) => model_of(callback, declaration),
        },
    }
}

/// Once some argument declares none, no later argument changes the error.
proof fn lemma_argument_error_stays(inputs: Seq<ArgumentDeclView>, from: int, at: int, to: int)
    requires
        from <= at <= to,
        arguments_among(inputs, from, at) is Err,
    ensures
        arguments_among(inputs, from, to) == arguments_among(inputs, from, at),
    decreases to - at,
{
    if at < to {
        lemma_argument_error_stays(inputs, from, at, to - 1);
    }
}

/// Once some method declares no operation, no later method changes the error.
proof fn lemma_operation_error_stays(methods: Seq<MethodDeclView>, at: int, to: int)
    requires
        0 <= at <= to,
        operations_among(methods, at) is Err,
    ensures
        operations_among(methods, to) == operations_among(methods, at),
    decreases to - at,
{
    if at < to {
        lemma_operation_error_stays(methods, at, to - 1);
    }
}

/// The unit type, as source text.
pub fn unit_type_text() -> (r: String)
    ensures
        r@ == unit_type(),
{
    "( )".to_owned()
}

impl OperationArgument {
    /// The argument that `arg` declares.
    pub fn try_from(arg: &ArgumentDecl) -> (r: Result<OperationArgument, ServiceContractError>)
        ensures
            outcome(r) == argument_of(arg@),
    {
        match arg {
            ArgumentDecl::SelfRef => Err(ServiceContractError::BadArgument),
            ArgumentDecl::SelfValue => Err(ServiceContractError::BadArgument),
            ArgumentDecl::Captured { binding, ty } => match binding {
                Some(name) => Ok(OperationArgument { name: name.clone(), ty: ty.clone() }),
                None => Err(ServiceContractError::BadArgument),
            },
            ArgumentDecl::Inferred => Err(ServiceContractError::BadArgument),
            ArgumentDecl::Ignored => Err(ServiceContractError::BadArgument),
        }
    }
}

/// Whether no two of `names` are the same.
fn all_distinct(names: &Vec<String>) -> (r: bool)
    ensures
        r == distinct_texts(texts(names@)),
{
    let ghost all = texts(names@);
    let mut i: usize = 0;
    while i < names.len()
        invariant
            i <= names.len(),
            all == texts(names@),
            forall|a: int, b: int| 0 <= a < b < i ==> all[a] != all[b],
        decreases names.len() - i,
    {
        let mut j: usize = 0;
        while j < i
            invariant
                j <= i < names.len(),
                all == texts(names@),
                forall|a: int| 0 <= a < j ==> all[a] != all[i as int],
            decreases i - j,
        {
            if names[j] == names[i] {
                assert(all[j as int] == all[i as int]);
                return false;
            }
            j = j + 1;
        }
        i = i + 1;
    }
    true
}

impl Operation {
    /// Whether no two arguments have one name.
    pub fn has_distinct_arguments(&self) -> (r: bool)
        ensures
            r == distinct_names(self@.args),
    {
        let mut names: Vec<String> = Vec::new();
        let mut i: usize = 0;
        while i < self.args.len()
            invariant
                i <= self.args.len(),
                names.len() == i,
                forall|k: int| 0 <= k < i ==> names@[k]@ == self.args@[k].name@,
            decreases self.args.len() - i,
        {
            names.push(self.args[i].name.clone());
            i = i + 1;
        }
        let r = all_distinct(&names);
        proof {
            let all = texts(names@);
            let args = self@.args;
            assert forall|k: int| 0 <= k < all.len() implies all[k] == args[k].name by {}
            if distinct_texts(all) {
                assert forall|a: int, b: int| 0 <= a < b < args.len() implies args[a].name
                    != args[b].name by {
                    assert(all[a] != all[b]);
                }
            } else {
                let (a, b) = choose|a: int, b: int| 0 <= a < b < all.len() && all[a] == all[b];
                assert(args[a].name == args[b].name);
            }
        }
        r
    }

    /// A copy of this operation.
    pub fn duplicate(&self) -> (r: Operation)
        ensures
            r@ == self@,
    {
        let mut args: Vec<OperationArgument> = Vec::new();
        let mut i: usize = 0;
        while i < self.args.len()
            invariant
                i <= self.args.len(),
                args.len() == i,
                forall|j: int| 0 <= j < i ==> args@[j]@ == self.args@[j]@,
            decreases self.args.len() - i,
        {
            args.push(
                OperationArgument { name: self.args[i].name.clone(), ty: self.args[i].ty.clone() },
            );
            i = i + 1;
        }
        assert(views(args@) =~= views(self.args@));
        Operation { name: self.name.clone(), args, output: self.output.clone() }
    }

    /// The operation that `method` declares.
    pub fn try_from(method: &MethodDecl) -> (r: Result<Operation, ServiceContractError>)
        ensures
            outcome(r) == operation_of(method@),
    {
        let count = method.inputs.len();
        if count == 0 {
            return Err(ServiceContractError::BadItem);
        }
        match &method.inputs[0] {
            ArgumentDecl::SelfRef => {},
            ArgumentDecl::SelfValue => {},
            _ => {
                return Err(ServiceContractError::BadItem);
            },
        }
        let ghost inputs = method@.inputs;
        let mut args: Vec<OperationArgument> = Vec::new();
        let mut i: usize = 1;
        while i < count
            invariant
                1 <= i <= count,
                count == method.inputs.len(),
                inputs == views(method.inputs@),
                is_receiver(inputs[0]),
                arguments_among(inputs, 1, i as int) is Ok,
                arguments_among(inputs, 1, i as int)->Ok_0 == views(args@),
            decreases count - i,
        {
            let declared = match &method.inputs[i] {
                ArgumentDecl::SelfRef => Err(ServiceContractError::BadItem),
                ArgumentDecl::SelfValue => Err(ServiceContractError::BadItem),
                other => OperationArgument::try_from(other),
            };
            assert(outcome(declared) == trailing_argument_of(method.inputs@[i as int]@));
            match declared {
                Ok(a) => {
                    assert(views(args@.push(a)) =~= views(args@).push(a@));
                    args.push(a);
                },
                Err(e) => {
                    proof {
                        assert(inputs[i as int] == method.inputs@[i as int]@);
                        assert(arguments_among(inputs, 1, i as int + 1) == Err::<
                            Seq<OperationArgumentView>,
                            ServiceContractError,
                        >(e));
                        lemma_argument_error_stays(inputs, 1, i as int + 1, count as int);
                    }
                    return Err(e);
                },
            }
            i = i + 1;
        }
        let output = match &method.output {
            Some(t) => t.clone(),
            None => unit_type_text(),
        };
        Ok(Operation { name: method.name.clone(), args, output })
    }
}

impl ServiceContractModel {
    /// The unit contract: it has no operation, and its callback contract is
    /// the unit contract again.
    pub fn unit() -> (r: ServiceContractModel)
        ensures
            r@ == unit_model(),
    {
        let r = ServiceContractModel {
            name: unit_type_text(),
            callback_interface: unit_type_text(),
            mod_ident: unit_type_text().concat("_impl_mod"),
            operations: Vec::new(),
        };
        assert(r@.operations =~= Seq::<OperationView>::empty());
        r
    }

    /// Whether the contract is one that a trait can declare: no two of its
    /// operations have one name, and no two arguments of an operation have.
    pub fn is_well_formed(&self) -> (r: bool)
        ensures
            r == well_formed(self@),
    {
        let ghost operations = self@.operations;
        let mut names: Vec<String> = Vec::new();
        let mut i: usize = 0;
        while i < self.operations.len()
            invariant
                i <= self.operations.len(),
                operations == self@.operations,
                names.len() == i,
                forall|k: int| 0 <= k < i ==> names@[k]@ == self.operations@[k].name@,
                forall|k: int| 0 <= k < i ==> distinct_names((#[trigger] operations[k]).args),
            decreases self.operations.len() - i,
        {
            assert(operations[i as int] == self.operations@[i as int]@);
            if !self.operations[i].has_distinct_arguments() {
                return false;
            }
            names.push(self.operations[i].name.clone());
            i = i + 1;
        }
        let r = all_distinct(&names);
        proof {
            let all = texts(names@);
            assert forall|k: int| 0 <= k < all.len() implies all[k] == operations[k].name by {
                assert(operations[k] == self.operations@[k]@);
            }
            if distinct_texts(all) {
                assert forall|a: int, b: int|
                    0 <= a < b < operations.len() implies operations[a].name
                    != operations[b].name by {
                    assert(all[a] != all[b]);
                }
            } else {
                let (a, b) = choose|a: int, b: int| 0 <= a < b < all.len() && all[a] == all[b];
                assert(operations[a].name == operations[b].name);
            }
        }
        r
    }

    /// A copy of this contract.
    pub fn duplicate(&self) -> (r: ServiceContractModel)
        ensures
            r@ == self@,
    {
        let mut operations: Vec<Operation> = Vec::new();
        let mut i: usize = 0;
        while i < self.operations.len()
            invariant
                i <= self.operations.len(),
                operations.len() == i,
                forall|j: int| 0 <= j < i ==> operations@[j]@ == self.operations@[j]@,
            decreases self.operations.len() - i,
        {
            operations.push(self.operations[i].duplicate());
            i = i + 1;
        }
        assert(views(operations@) =~= views(self.operations@));
        ServiceContractModel {
            name: self.name.clone(),
            callback_interface: self.callback_interface.clone(),
            mod_ident: self.mod_ident.clone(),
            operations,
        }
    }

    /// Whether the contract has a callback contract other than the unit
    /// contract.
    pub fn is_duplex(&self) -> (r: bool)
        ensures
            r == (self@.callback_interface != unit_type()),
    {
        self.callback_interface != unit_type_text()
    }

    /// The contract that `declaration` declares, with `callback` as its
    /// callback contract.
    pub fn from_declaration(callback: String, declaration: &TraitDecl) -> (r: Result<
        ServiceContractModel,
        ServiceContractError,
    >)
        ensures
            outcome(r) == model_of(callback@, declaration@),
    {
        let count = declaration.methods.len();
        let ghost methods = declaration@.methods;
        let mut operations: Vec<Operation> = Vec::new();
        let mut i: usize = 0;
        while i < count
            invariant
                i <= count,
                count == declaration.methods.len(),
                methods == views(declaration.methods@),
                operations_among(methods, i as int) is Ok,
                operations_among(methods, i as int)->Ok_0 == views(operations@),
            decreases count - i,
        {
            match Operation::try_from(&declaration.methods[i]) {
                Ok(o) => {
                    assert(views(operations@.push(o)) =~= views(operations@).push(o@));
                    operations.push(o);
                },
                Err(e) => {
                    proof {
                        assert(methods[i as int] == declaration.methods@[i as int]@);
                        assert(operations_among(methods, i as int + 1) == Err::<
                            Seq<OperationView>,
                            ServiceContractError,
                        >(e));
                        lemma_operation_error_stays(methods, i as int + 1, count as int);
                    }
                    return Err(e);
                },
            }
            i = i + 1;
        }
        let mod_ident = declaration.name.clone().concat("_impl_mod");
        Ok(
            ServiceContractModel {
                name: declaration.name.clone(),
                callback_interface: callback,
                mod_ident,
                operations,
            },
        )
    }

    /// The contract that the source text `tokens` declares under the
    /// annotation `attribute`: `attribute` is empty or one parenthesised list
    /// of `callback = Type`, and `tokens` is a trait.
    pub fn try_from(attribute: &str, tokens: &str) -> (r: Result<
        ServiceContractModel,
        ServiceContractError,
    >)
        ensures
            outcome(r) == contract_of(attribute@, tokens@),
    {
        let callback = match read_callback(attribute) {
            Ok(c) => c,
            Err(e) => {
                return Err(e);
            },
        };
        match read_trait(tokens) {
            None => Err(ServiceContractError::BadItem),
            Some(declaration) => ServiceContractModel::from_declaration(callback, &declaration),
        }
    }
}

/// The callback contract that the settings of an annotation name.
pub fn select_callback(settings: &Vec<(String, String)>) -> (r: Result<
    String,
    ServiceContractError,
>)
    ensures
        outcome(r) == callback_of(settings.deep_view()),
{
    let key = "callback".to_owned();
    let ghost all = settings.deep_view();
    let mut i: usize = 0;
    while i < settings.len()
        invariant
            i <= settings.len(),
            all == settings.deep_view(),
            key@ == callback_key(),
            forall|j: int| 0 <= j < i ==> all[j].0 == callback_key(),
        decreases settings.len() - i,
    {
        if settings[i].0 != key {
            assert(all[i as int].0 != callback_key());
            return Err(ServiceContractError::BadItem);
        }
        i = i + 1;
    }
    if settings.len() == 0 {
        Ok(unit_type_text())
    } else {
        Ok(settings[settings.len() - 1].1.clone())
    }
}

/// The callback contract that the annotation `attribute` names.
pub fn read_callback(attribute: &str) -> (r: Result<String, ServiceContractError>)
    ensures
        outcome(r) == callback_in(attribute@),
{
    match tokens_of(attribute) {
        None => Err(ServiceContractError::BadItem),
        Some(tokens) => {
            if tokens.len() == 0 {
                Ok(unit_type_text())
            } else if tokens.len() == 1 {
                match &tokens[0] {
                    TokenDecl::Group(delimiter, inner) => {
                        if *delimiter == DelimiterDecl::Parenthesis {
                            match parse_bindings(inner.as_str()) {
                                None => Err(ServiceContractError::BadItem),
                                Some(settings) => select_callback(&settings),
                            }
                        } else {
                            Err(ServiceContractError::BadItem)
                        }
                    },
                    _ => Err(ServiceContractError::BadItem),
                }
            } else {
                Err(ServiceContractError::BadItem)
            }
        },
    }
}

/// The trait that the source text `tokens` declares, where it declares one:
/// its name, and of its items the methods.
pub fn read_trait(tokens: &str) -> (r: Option<TraitDecl>)
    ensures
        r is Some <==> trait_declaration(tokens@) is Some,
        r matches Some(d) ==> Some(d@) == trait_declaration(tokens@),
{
    match parse_trait(tokens) {
        None => None,
        Some(item) => {
            let members = trait_signatures(&item);
            let mut methods: Vec<MethodDecl> = Vec::new();
            let mut i: usize = 0;
            while i < members.len()
                invariant
                    i <= members.len(),
                    views(methods@) == methods_among(members@, i as int),
                decreases members.len() - i,
            {
                match &members[i] {
                    Some(signature) => {
                        let method = MethodDecl {
                            name: signature_name(signature),
                            inputs: signature_inputs(signature),
                            output: signature_output(signature),
                        };
                        assert(method@ == method_of(*signature));
                        assert(views(methods@.push(method)) =~= views(methods@).push(method@));
                        methods.push(method);
                    },
                    None => {},
                }
                i = i + 1;
            }
            Some(TraitDecl { name: trait_name(&item), methods })
        },
    }
}

/// Why a declaration is no service.
#[derive(Debug, Clone, Copy, PartialEq, Eq, Structural)]
pub enum ServiceError {
    /// The declaration is no struct.
    BadItem,
    /// The annotation is no parenthesised list of one or more contracts.
    BadAttribute,
}

/// An implementation of contracts: the struct that implements them. Two
/// are equal where they implement the same contracts, in whatever order.
#[derive(Debug, Eq)]
pub struct ServiceModel {
    pub name: String,
    /// The name of the module that holds what belongs to the service.
    pub mod_ident: String,
    /// The set of the contracts that the struct implements: each once, kept
    /// in the order in which the annotation first names them.
    pub services: Vec<String>,
    /// Whether a field of the struct holds the state of a session.
    pub has_session: bool,
}

/// The mathematical value of a `ServiceModel`.
pub struct ServiceModelView {
    pub name: Seq<char>,
    pub mod_ident: Seq<char>,
    pub services: Seq<Seq<char>>,
    pub has_session: bool,
}

/// The texts of `items`, in order.
pub open spec fn texts(items: Seq<String>) -> Seq<Seq<char>> {
    Seq::new(items.len(), |i: int| items[i]@)
}

impl View for ServiceModel {
    type V = ServiceModelView;

    open spec fn view(&self) -> ServiceModelView {
        ServiceModelView {
            name: self.name@,
            mod_ident: self.mod_ident@,
            services: texts(self.services@),
            has_session: self.has_session,
        }
    }
}

/// A struct as declared: its name and, for each field in order, the segments
/// of the field's type where that type is a path.
#[derive(Debug, PartialEq, Eq)]
pub struct StructDecl {
    pub name: String,
    pub fields: Vec<Option<Vec<String>>>,
}

/// The mathematical value of a `StructDecl`.
pub struct StructDeclView {
    pub name: Seq<char>,
    pub fields: Seq<Option<Seq<Seq<char>>>>,
}

impl View for StructDecl {
    type V = StructDeclView;

    open spec fn view(&self) -> StructDeclView {
        StructDeclView { name: self.name@, fields: self.fields.deep_view() }
    }
}

/// The type by which a field holds the state of a session.
pub open spec fn session_type() -> Seq<char> {
    "SessionInfo"@
}

/// Whether a field holds the state of a session: its type is a path whose
/// last segment is the session type.
pub open spec fn holds_session(field: Option<Seq<Seq<char>>>) -> bool {
    field matches Some(path) && path.len() > 0 && path.last() == session_type()
}

/// Whether one of the first `to` of `fields` holds the state of a session.
pub open spec fn session_among(fields: Seq<Option<Seq<Seq<char>>>>, to: int) -> bool {
    exists|i: int| 0 <= i < to && i < fields.len() && holds_session(#[trigger] fields[i])
}

/// The first `to` of `names` with each name kept where it first stands.
pub open spec fn unique_among(names: Seq<Seq<char>>, to: int) -> Seq<Seq<char>>
    decreases to,
{
    if to <= 0 {
        Seq::empty()
    } else if unique_among(names, to - 1).contains(names[to - 1]) {
        unique_among(names, to - 1)
    } else {
        unique_among(names, to - 1).push(names[to - 1])
    }
}

/// What `unique_among` keeps is a set: no name stands in it twice, and a name
/// stands in it exactly if it is among the names it was made of.
pub proof fn lemma_unique_among(names: Seq<Seq<char>>, to: int)
    requires
        0 <= to <= names.len(),
    ensures
        unique_among(names, to).no_duplicates(),
        forall|name: Seq<char>|
            unique_among(names, to).contains(name) <==> exists|i: int|
                0 <= i < to && names[i] == name,
    decreases to,
{
    if to > 0 {
        lemma_unique_among(names, to - 1);
        let kept = unique_among(names, to - 1);
        let all = unique_among(names, to);
        if kept.contains(names[to - 1]) {
            assert forall|name: Seq<char>| all.contains(name) <==> exists|i: int|
                0 <= i < to && names[i] == name by {
                if exists|i: int| 0 <= i < to && names[i] == name {
                    let i = choose|i: int| 0 <= i < to && names[i] == name;
                    if i == to - 1 {
                        assert(kept.contains(name));
                    } else {
                        assert(0 <= i < to - 1 && names[i] == name);
                    }
                }
                if all.contains(name) {
                    let i = choose|i: int| 0 <= i < to - 1 && names[i] == name;
                    assert(0 <= i < to && names[i] == name);
                }
            }
        } else {
            assert forall|name: Seq<char>| all.contains(name) <==> exists|i: int|
                0 <= i < to && names[i] == name by {
                if all.contains(name) {
                    let j = choose|j: int| 0 <= j < all.len() && all[j] == name;
                    if j < kept.len() {
                        assert(kept[j] == name);
                        assert(kept.contains(name));
                        let i = choose|i: int| 0 <= i < to - 1 && names[i] == name;
                        assert(0 <= i < to && names[i] == name);
                    } else {
                        assert(names[to - 1] == name);
                    }
                }
                if exists|i: int| 0 <= i < to && names[i] == name {
                    let i = choose|i: int| 0 <= i < to && names[i] == name;
                    if i == to - 1 {
                        assert(all[kept.len() as int] == name);
                    } else {
                        assert(0 <= i < to - 1 && names[i] == name);
                        assert(kept.contains(name));
                        let j = choose|j: int| 0 <= j < kept.len() && kept[j] == name;
                        assert(all[j] == name);
                    }
                }
            }
            assert forall|i: int, j: int| 0 <= i < all.len() && 0 <= j < all.len() && i
                != j implies all[i] != all[j] by {
                if i == kept.len() {
                    assert(kept[j] == all[j]);
                    assert(kept.contains(all[j]));
                } else if j == kept.len() {
                    assert(kept[i] == all[i]);
                    assert(kept.contains(all[i]));
                }
            }
        }
    }
}

/// The service that `declaration` declares for the contracts `contracts`.
pub open spec fn service_of(contracts: Seq<Seq<char>>, declaration: StructDeclView) -> ServiceModelView {
    ServiceModelView {
        name: declaration.name,
        mod_ident: declaration.name + module_suffix(),
        services: unique_among(contracts, contracts.len() as int),
        has_session: session_among(declaration.fields, declaration.fields.len() as int),
    }
}

/// The contracts that the annotation `attribute` names: it is one
/// parenthesised list of one or more names.
pub open spec fn contracts_in(attribute: Seq<char>) -> Option<Seq<Seq<char>>> {
    match token_trees(attribute) {
        None => None,
        Some(tokens) => if tokens.len() == 1 {
            match tokens[0] {
                TokenDeclView::Group(DelimiterDecl::Parenthesis, inner) => ident_list(inner),
                _ => None,
            }
        } else {
            None
        },
    }
}

/// The struct that the source text `tokens` declares, where it declares one.
pub open spec fn struct_declaration(tokens: Seq<char>) -> Option<StructDeclView> {
    match parsed_struct(tokens) {
        None => None,
        Some(item) => Some(
            StructDeclView { name: struct_ident(item), fields: struct_field_paths(item) },
        ),
    }
}

/// The service that the source text `tokens` declares under the annotation
/// `attribute`.
pub open spec fn service_in(attribute: Seq<char>, tokens: Seq<char>) -> Result<
    ServiceModelView,
    ServiceError,
> {
    match struct_declaration(tokens) {
        None => Err(ServiceError::BadItem),
        Some(declaration) => match contracts_in(attribute) {
            None => Err(ServiceError::BadAttribute),
            Some(contracts) => Ok(service_of(contracts, declaration)),
        },
    }
}

/// The struct that the source text `tokens` declares, where it declares one.
pub fn read_struct(tokens: &str) -> (r: Option<StructDecl>)
    ensures
        r is Some <==> struct_declaration(tokens@) is Some,
        r matches Some(d) ==> Some(d@) == struct_declaration(tokens@),
{
    match parse_struct(tokens) {
        None => None,
        Some(item) => Some(StructDecl { name: struct_name(&item), fields: struct_fields(&item) }),
    }
}

/// The contracts that the annotation `attribute` names.
pub fn read_contracts(attribute: &str) -> (r: Option<Vec<String>>)
    ensures
        r.deep_view() == contracts_in(attribute@),
{
    match tokens_of(attribute) {
        None => None,
        Some(tokens) => {
            if tokens.len() == 1 {
                match &tokens[0] {
                    TokenDecl::Group(delimiter, inner) => {
                        if *delimiter == DelimiterDecl::Parenthesis {
                            parse_idents(inner.as_str())
                        } else {
                            None
                        }
                    },
                    _ => None,
                }
            } else {
                None
            }
        },
    }
}

/// Whether `names` holds `name`.
pub(crate) fn holds(names: &Vec<String>, name: &String) -> (r: bool)
    ensures
        r == texts(names@).contains(name@),
{
    let mut i: usize = 0;
    while i < names.len()
        invariant
            i <= names.len(),
            forall|j: int| 0 <= j < i ==> texts(names@)[j] != name@,
        decreases names.len() - i,
    {
        if names[i] == *name {
            assert(texts(names@)[i as int] == name@);
            return true;
        }
        i = i + 1;
    }
    false
}

impl ServiceModel {
    /// The service that `declaration` declares for `contracts`: each contract
    /// is kept once, and the service has a session exactly if the type of one
    /// of its fields ends in `SessionInfo`.
    pub fn from_declaration(contracts: &Vec<String>, declaration: &StructDecl) -> (r: ServiceModel)
        ensures
            r@ == service_of(texts(contracts@), declaration@),
            r@.services.no_duplicates(),
            forall|name: Seq<char>|
                r@.services.contains(name) <==> texts(contracts@).contains(name),
    {
        let ghost names = texts(contracts@);
        let mut services: Vec<String> = Vec::new();
        let mut i: usize = 0;
        while i < contracts.len()
            invariant
                i <= contracts.len(),
                names == texts(contracts@),
                texts(services@) == unique_among(names, i as int),
            decreases contracts.len() - i,
        {
            if !holds(&services, &contracts[i]) {
                assert(texts(services@.push(contracts@[i as int])) =~= texts(services@).push(
                    names[i as int],
                ));
                services.push(contracts[i].clone());
            }
            i = i + 1;
        }
        let ghost fields = declaration@.fields;
        let wanted = "SessionInfo".to_owned();
        let mut has_session = false;
        let mut k: usize = 0;
        while k < declaration.fields.len()
            invariant
                k <= declaration.fields.len(),
                fields == declaration.fields.deep_view(),
                fields.len() == declaration.fields.len(),
                wanted@ == session_type(),
                has_session == session_among(fields, k as int),
            decreases declaration.fields.len() - k,
        {
            assert(fields[k as int] == declaration.fields@[k as int].deep_view());
            let found = match &declaration.fields[k] {
                Some(path) => {
                    assert(fields[k as int]->Some_0 == path.deep_view());
                    if path.len() > 0 {
                        assert(path.deep_view().last() == path@[path.len() - 1]@);
                        path[path.len() - 1] == wanted
                    } else {
                        false
                    }
                },
                None => false,
            };
            assert(found == holds_session(fields[k as int]));
            if found {
                has_session = true;
            }
            assert(session_among(fields, k as int + 1) == (session_among(fields, k as int)
                || found)) by {
                if session_among(fields, k as int + 1) {
                    let w = choose|w: int|
                        0 <= w < k as int + 1 && w < fields.len() && holds_session(
                            #[trigger] fields[w],
                        );
                    if w < k as int {
                        assert(session_among(fields, k as int));
                    }
                }
                if session_among(fields, k as int) {
                    let w = choose|w: int|
                        0 <= w < k as int && w < fields.len() && holds_session(
                            #[trigger] fields[w],
                        );
                    assert(0 <= w < k as int + 1 && w < fields.len() && holds_session(fields[w]));
                }
                if found {
                    assert(0 <= k as int && (k as int) < k as int + 1 && (k as int) < fields.len()
                        && holds_session(fields[k as int]));
                }
            }
            k = k + 1;
        }
        proof {
            lemma_unique_among(names, names.len() as int);
            assert forall|name: Seq<char>| names.contains(name) <==> exists|i: int|
                0 <= i < names.len() && names[i] == name by {}
        }
        ServiceModel {
            name: declaration.name.clone(),
            mod_ident: declaration.name.clone().concat("_impl_mod"),
            services,
            has_session,
        }
    }

    /// The service that the source text `tokens` declares under the
    /// annotation `attribute`: `tokens` is a struct, and `attribute` one
    /// parenthesised list of one or more contracts.
    pub fn try_from(attribute: &str, tokens: &str) -> (r: Result<ServiceModel, ServiceError>)
        ensures
            outcome(r) == service_in(attribute@, tokens@),
    {
        match read_struct(tokens) {
            None => Err(ServiceError::BadItem),
            Some(declaration) => match read_contracts(attribute) {
                None => Err(ServiceError::BadAttribute),
                Some(contracts) => {
                    assert(texts(contracts@) =~= contracts.deep_view());
                    Ok(ServiceModel::from_declaration(&contracts, &declaration))
                },
            },
        }
    }
}

} // verus!
