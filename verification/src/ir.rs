//! Intermediate representation.
//!
//! These types are built from a source tree that carries the marker
//! attributes. They hold what is needed to generate bridge and target code.

use vstd::prelude::*;
use crate::parse::{
    is_error, spec_marshal_from, syntax_error, Fun, FunView, Marshal, Parsed,
};
use crate::rule::{spec_infer, MarshalingRule, RuleView};
use crate::syntax::{
    attribute_views, unit_path, AttrStyle, Attribute, AttributeView, FnArg, ItemFn, Path,
    PathView, ReturnType, Type,
};
use crate::util::{
    assert_type_is_path, is_wrapper, lemma_next_layer_depth, spec_depth, spec_is_wrapper,
    spec_next_layer, spec_type_as_path, spec_unwrap, same_text, unwrap_type, SyntaxError,
    TypeLayerIter,
};

verus! {

/// Function parameter.
#[derive(Debug, PartialEq)]
pub struct Input {
    pub rule: MarshalingRule,
    /// If the parameter accepts a reference.
    pub borrow: bool,
    /// The actual type below the known wrappers.
    pub unwrapped_type: Path,
}

/// Mathematical value of an [`Input`].
pub struct InputView {
    pub rule: RuleView,
    pub borrow: bool,
    pub unwrapped_type: PathView,
}

impl View for Input {
    type V = InputView;

    open spec fn view(&self) -> InputView {
        InputView { rule: self.rule@, borrow: self.borrow, unwrapped_type: self.unwrapped_type@ }
    }
}

/// Function return type.
#[derive(Debug, PartialEq)]
pub struct Output {
    pub rule: MarshalingRule,
    /// The actual type below the known wrappers.
    pub unwrapped_type: Path,
    /// Whether a `Result` wraps the value.
    pub fallible: bool,
    /// Whether an `Option` wraps the value.
    pub optional: bool,
    /// Whether the value is delivered later, by an asynchronous task.
    pub future: bool,
}

/// Mathematical value of an [`Output`].
pub struct OutputView {
    pub rule: RuleView,
    pub unwrapped_type: PathView,
    pub fallible: bool,
    pub optional: bool,
    pub future: bool,
}

impl View for Output {
    type V = OutputView;

    open spec fn view(&self) -> OutputView {
        OutputView {
            rule: self.rule@,
            unwrapped_type: self.unwrapped_type@,
            fallible: self.fallible,
            optional: self.optional,
            future: self.future,
        }
    }
}

/// Free-standing function.
#[derive(Debug, PartialEq)]
pub struct Function {
    pub inputs: Vec<Input>,
    pub name: String,
    pub output: Output,
    pub cfg: Vec<Attribute>,
    /// Public name exported to the target side.
    pub pubname: String,
}

/// Mathematical value of a [`Function`].
pub struct FunctionView {
    pub inputs: Seq<InputView>,
    pub name: Seq<char>,
    pub output: OutputView,
    pub cfg: Seq<AttributeView>,
    pub pubname: Seq<char>,
}

/// The views of a sequence of inputs.
pub open spec fn input_views(v: Seq<Input>) -> Seq<InputView> {
    v.map_values(|x: Input| x@)
}

impl View for Function {
    type V = FunctionView;

    open spec fn view(&self) -> FunctionView {
        FunctionView {
            inputs: input_views(self.inputs@),
            name: self.name@,
            output: self.output@,
            cfg: attribute_views(self.cfg@),
            pubname: self.pubname@,
        }
    }
}

/// The views of a sequence of functions.
pub open spec fn function_views(v: Seq<Function>) -> Seq<FunctionView> {
    v.map_values(|x: Function| x@)
}

/// Module.
#[derive(Debug, PartialEq)]
pub struct Module {
    pub functions: Vec<Function>,
    /// Full path of this module. An empty path indicates the root module.
    pub path: Vec<String>,
    pub cfg: Vec<Attribute>,
}

/// Mathematical value of a [`Module`].
pub struct ModuleView {
    pub functions: Seq<FunctionView>,
    pub path: Seq<Seq<char>>,
    pub cfg: Seq<AttributeView>,
}

impl View for Module {
    type V = ModuleView;

    open spec fn view(&self) -> ModuleView {
        ModuleView {
            functions: function_views(self.functions@),
            path: self.path@.map_values(|s: String| s@),
            cfg: attribute_views(self.cfg@),
        }
    }
}

/// The views of a sequence of modules.
pub open spec fn module_views(v: Seq<Module>) -> Seq<ModuleView> {
    v.map_values(|x: Module| x@)
}

/// Crate. This is the root of a tree.
#[derive(Debug, PartialEq)]
pub struct Crate {
    pub modules: Vec<Module>,
    pub name: String,
}

/// Mathematical value of a [`Crate`].
pub struct CrateView {
    pub modules: Seq<ModuleView>,
    pub name: Seq<char>,
}

impl View for Crate {
    type V = CrateView;

    open spec fn view(&self) -> CrateView {
        CrateView { modules: module_views(self.modules@), name: self.name@ }
    }
}

/// The conditional-compilation guards among `attrs`, in their order, each
/// in the form that is written before its item.
pub open spec fn spec_extract_cfg(attrs: Seq<Attribute>) -> Seq<AttributeView>
    decreases attrs.len(),
{
    if attrs.len() == 0 {
        Seq::empty()
    } else {
        let before = spec_extract_cfg(attrs.drop_last());
        let last = attrs.last();
        if last@.path == seq!["cfg"@] {
            before.push(
                AttributeView { style: AttrStyle::Outer, path: last@.path, tokens: last@.tokens },
            )
        } else {
            before
        }
    }
}

/// Picks the conditional-compilation guards and rewrites those written
/// inside their item to the form written before it.
pub fn extract_cfg(src: &Vec<Attribute>) -> (r: Vec<Attribute>)
    ensures
        attribute_views(r@) == spec_extract_cfg(src@),
{
    let name = [String::from_str("cfg")];
    proof {
        assert(name@.map_values(|s: String| s@) =~= seq!["cfg"@]);
    }
    let mut out: Vec<Attribute> = Vec::new();
    let mut i: usize = 0;
    while i < src.len()
        invariant
            i <= src.len(),
            name@.map_values(|s: String| s@) == seq!["cfg"@],
            attribute_views(out@) == spec_extract_cfg(src@.take(i as int)),
        decreases src.len() - i,
    {
        proof {
            assert(src@.take(i as int + 1).drop_last() =~= src@.take(i as int));
        }
        if crate::syntax::same_path(src[i].path.as_slice(), name.as_slice()) {
            let attr = src[i].restyled(AttrStyle::Outer);
            proof {
                assert(attribute_views(out@.push(attr)) =~= attribute_views(out@).push(attr@));
            }
            out.push(attr);
        }
        i += 1;
    }
    proof {
        assert(src@.take(src.len() as int) =~= src@);
    }
    out
}

/// Whether one of `attrs` marks its item as left out.
pub open spec fn spec_ignored(attrs: Seq<Attribute>) -> bool {
    exists|i: int| 0 <= i < attrs.len() && (#[trigger] attrs[i])@.path == seq!["riko"@, "ignore"@]
}

/// Whether one of the attributes marks its item as left out of the scan.
pub fn find_ignore_attribute(src: &Vec<Attribute>) -> (r: bool)
    ensures
        r == spec_ignored(src@),
{
    let name = [String::from_str("riko"), String::from_str("ignore")];
    proof {
        assert(name@.map_values(|s: String| s@) =~= seq!["riko"@, "ignore"@]);
    }
    let mut i: usize = 0;
    while i < src.len()
        invariant
            i <= src.len(),
            name@.map_values(|s: String| s@) == seq!["riko"@, "ignore"@],
            forall|j: int| 0 <= j < i ==> (#[trigger] src@[j])@.path != seq!["riko"@, "ignore"@],
        decreases src.len() - i,
    {
        if crate::syntax::same_path(src[i].path.as_slice(), name.as_slice()) {
            return true;
        }
        i += 1;
    }
    false
}

/// Whether a wrapper named `name` is among the layers of `p` that are
/// looked through.
pub open spec fn spec_has_layer(p: PathView, name: Seq<char>) -> bool
    decreases spec_depth(p),
{
    match p.last {
        None => false,
        Some(ident) => if !spec_is_wrapper(ident) {
            false
        } else if ident == name {
            true
        } else {
            match spec_next_layer(p) {
                Some(q) => if spec_depth(q) < spec_depth(p) {
                    spec_has_layer(q, name)
                } else {
                    false
                },
                None => false,
            }
        },
    }
}

/// Whether a wrapper named `name` is among the layers of `ty` that are
/// looked through.
pub fn has_layer(ty: &Path, name: &str) -> (r: bool)
    ensures
        r == spec_has_layer(ty@, name@),
{
    let ghost goal = spec_has_layer(ty@, name@);
    let mut iter = TypeLayerIter::new(ty.duplicate());
    loop
        invariant
            goal == spec_has_layer(ty@, name@),
            match iter.cursor() {
                Some(p) => goal == spec_has_layer(p, name@),
                None => goal == false,
            },
        decreases
            match iter.cursor() {
                Some(p) => spec_depth(p) + 1,
                None => 0,
            },
    {
        let ghost before = iter.cursor();
        match iter.next() {
            Some(layer) => {
                proof {
                    lemma_next_layer_depth(before->0);
                }
                match &layer.last {
                    Some(ident) => {
                        if !is_wrapper(ident.as_str()) {
                            return false;
                        }
                        if same_text(ident.as_str(), name) {
                            return true;
                        }
                    },
                    None => {
                        return false;
                    },
                }
            },
            None => {
                return false;
            },
        }
    }
}

/// What a parameter is read as.
pub open spec fn spec_input(item: FnArg) -> Parsed<InputView> {
    match item {
        FnArg::Typed(attrs, ty) => {
            let borrow = ty is Reference;
            let written = match ty {
                Type::Reference(inner) => spec_type_as_path(inner@),
                _ => spec_type_as_path(ty@),
            };
            match written {
                None => Parsed::Bad("Expect a type path or a unit"@),
                Some(written_path) => {
                    let unwrapped = spec_unwrap(written_path);
                    match spec_marshal_from(attrs@) {
                        Parsed::Bad(e) => Parsed::Bad(e),
                        Parsed::Good(Some(rule)) => Parsed::Good(
                            InputView { rule, borrow, unwrapped_type: unwrapped },
                        ),
                        Parsed::Good(None) => Parsed::Good(
                            InputView {
                                rule: spec_infer(unwrapped.tokens),
                                borrow,
                                unwrapped_type: unwrapped,
                            },
                        ),
                    }
                },
            }
        },
        FnArg::Receiver => Parsed::Bad("`#[fun]` on a method not implemented"@),
    }
}

impl Input {
    /// Reads a parameter: its explicit rule where it has one, the inferred
    /// rule otherwise.
    pub fn parse(item: &FnArg) -> (r: Result<Input, SyntaxError>)
        ensures
            match spec_input(*item) {
                Parsed::Good(v) => r matches Ok(input) && input@ == v,
                Parsed::Bad(msg) => r matches Err(e) && is_error(e, msg),
            },
    {
        match item {
            FnArg::Typed(attrs, ty) => {
                let (borrow, written) = match ty {
                    Type::Reference(inner) => (true, assert_type_is_path(inner)),
                    _ => (false, assert_type_is_path(ty)),
                };
                let written_type = match written {
                    Ok(p) => p,
                    Err(e) => {
                        return Err(e);
                    },
                };
                let unwrapped_type = unwrap_type(written_type);
                let rule = match Marshal::take_from(attrs) {
                    Ok(Some(args)) => args.value,
                    Ok(None) => MarshalingRule::infer(&unwrapped_type),
                    Err(e) => {
                        return Err(e);
                    },
                };
                Ok(Input { rule, borrow, unwrapped_type })
            },
            FnArg::Receiver => Err(syntax_error("`#[fun]` on a method not implemented")),
        }
    }
}

/// What a return type is read as, given the explicit rule if there is one
/// and whether the function is asynchronous.
pub open spec fn spec_output(sig: ReturnType, hint: Option<RuleView>, asyncness: bool) -> Parsed<
    OutputView,
> {
    let written = match sig {
        ReturnType::Default => Some(unit_path()),
        ReturnType::Type(ty) => spec_type_as_path(ty@),
    };
    match written {
        None => Parsed::Bad("Expect a type path or a unit"@),
        Some(written_path) => {
            let unwrapped = spec_unwrap(written_path);
            Parsed::Good(
                OutputView {
                    rule: match hint {
                        Some(rule) => rule,
                        None => spec_infer(unwrapped.tokens),
                    },
                    unwrapped_type: unwrapped,
                    fallible: spec_has_layer(written_path, "Result"@),
                    optional: spec_has_layer(written_path, "Option"@),
                    future: asyncness || spec_has_layer(written_path, "Future"@),
                },
            )
        },
    }
}

impl Output {
    /// Reads a return type.
    pub fn parse(sig: &ReturnType, rule_hint: Option<MarshalingRule>, asyncness: bool) -> (r:
        Result<Output, SyntaxError>)
        ensures
            match spec_output(
                *sig,
                match rule_hint {
                    Some(h) => Some(h@),
                    None => None,
                },
                asyncness,
            ) {
                Parsed::Good(v) => r matches Ok(output) && output@ == v,
                Parsed::Bad(msg) => r matches Err(e) && is_error(e, msg),
            },
    {
        let written_type = match sig {
            ReturnType::Default => Path::unit(),
            ReturnType::Type(ty) => match assert_type_is_path(ty) {
                Ok(p) => p,
                Err(e) => {
                    return Err(e);
                },
            },
        };
        let fallible = has_layer(&written_type, "Result");
        let optional = has_layer(&written_type, "Option");
        let future = asyncness || has_layer(&written_type, "Future");
        let unwrapped_type = unwrap_type(written_type);
        let rule = match rule_hint {
            Some(inner) => inner,
            None => MarshalingRule::infer(&unwrapped_type),
        };
        Ok(Output { rule, unwrapped_type, fallible, optional, future })
    }

    /// The output of a function that returns nothing.
    pub fn default() -> (r: Output)
        ensures
            r@ == (OutputView {
                rule: RuleView::Unit,
                unwrapped_type: unit_path(),
                fallible: false,
                optional: false,
                future: false,
            }),
    {
        Output {
            rule: MarshalingRule::Unit,
            unwrapped_type: Path::unit(),
            fallible: false,
            optional: false,
            future: false,
        }
    }
}

/// The parameters read from left to right; the first one that is not
/// accepted decides the error.
pub open spec fn spec_inputs(args: Seq<FnArg>) -> Parsed<Seq<InputView>>
    decreases args.len(),
{
    if args.len() == 0 {
        Parsed::Good(Seq::empty())
    } else {
        match spec_inputs(args.drop_last()) {
            Parsed::Good(so_far) => match spec_input(args.last()) {
                Parsed::Good(input) => Parsed::Good(so_far.push(input)),
                Parsed::Bad(e) => Parsed::Bad(e),
            },
            Parsed::Bad(e) => Parsed::Bad(e),
        }
    }
}

/// A parameter that is not accepted decides the outcome for every longer
/// list.
proof fn lemma_inputs_bad(args: Seq<FnArg>, k: int)
    requires
        0 <= k <= args.len(),
    ensures
        spec_inputs(args.take(k)) is Bad ==> spec_inputs(args) == spec_inputs(args.take(k)),
    decreases args.len() - k,
{
    if k < args.len() {
        assert(args.take(k + 1).drop_last() =~= args.take(k));
        lemma_inputs_bad(args, k + 1);
    } else {
        assert(args.take(k) =~= args);
    }
}

/// What a marked function is read as, given the arguments of its marker.
pub open spec fn spec_function(item: ItemFn, args: FunView) -> Parsed<FunctionView> {
    match spec_inputs(item.inputs@) {
        Parsed::Bad(e) => Parsed::Bad(e),
        Parsed::Good(inputs) => match spec_output(item.output, args.marshal, item.asyncness) {
            Parsed::Bad(e) => Parsed::Bad(e),
            Parsed::Good(output) => Parsed::Good(
                FunctionView {
                    inputs,
                    name: item.ident@,
                    output,
                    cfg: spec_extract_cfg(item.attrs@),
                    pubname: if args.name.len() == 0 {
                        item.ident@
                    } else {
                        args.name
                    },
                },
            ),
        },
    }
}

impl Function {
    /// Reads a marked function.
    pub fn parse(item: &ItemFn, args: Fun) -> (r: Result<Function, SyntaxError>)
        ensures
            match spec_function(*item, args@) {
                Parsed::Good(v) => r matches Ok(function) && function@ == v,
                Parsed::Bad(msg) => r matches Err(e) && is_error(e, msg),
            },
    {
        let name = item.ident.clone();
        let mut inputs: Vec<Input> = Vec::new();
        let mut i: usize = 0;
        proof {
            assert(input_views(inputs@) =~= Seq::empty());
        }
        while i < item.inputs.len()
            invariant
                i <= item.inputs.len(),
                spec_inputs(item.inputs@.take(i as int)) == Parsed::Good(input_views(inputs@)),
            decreases item.inputs.len() - i,
        {
            proof {
                assert(item.inputs@.take(i as int + 1).drop_last() =~= item.inputs@.take(i as int));
                lemma_inputs_bad(item.inputs@, i as int + 1);
            }
            match Input::parse(&item.inputs[i]) {
                Ok(input) => {
                    proof {
                        assert(input_views(inputs@.push(input)) =~= input_views(inputs@).push(
                            input@,
                        ));
                    }
                    inputs.push(input);
                },
                Err(e) => {
                    return Err(e);
                },
            }
            i += 1;
        }
        proof {
            assert(item.inputs@.take(item.inputs.len() as int) =~= item.inputs@);
        }
        let Fun { name: public, marshal } = args;
        let pubname = if public.as_str().unicode_len() == 0 {
            name.clone()
        } else {
            public
        };
        let output = match Output::parse(&item.output, marshal, item.asyncness) {
            Ok(output) => output,
            Err(e) => {
                return Err(e);
            },
        };
        Ok(Function { inputs, pubname, name, output, cfg: extract_cfg(&item.attrs) })
    }
}

} // verus!
