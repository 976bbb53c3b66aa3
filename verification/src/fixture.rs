//! Small trees for trying the emitters: one crate `riko_sample` with one
//! module `example`.

use vstd::prelude::*;
use crate::ir::{
    function_views, input_views, module_views, Crate, CrateView, Function, FunctionView, Input,
    InputView, Module, ModuleView, Output, OutputView,
};
use crate::rule::{MarshalingRule, RuleView};
use crate::syntax::{attribute_views, ArgumentView, Attribute, Path, PathView};

verus! {

/// The plain path of one identifier.
pub open spec fn spec_ident(name: Seq<char>) -> PathView {
    PathView { tokens: name, leading_colon: false, last: Some(name), first: ArgumentView::Absent }
}

/// A function `function` without guards.
pub open spec fn spec_sample_function(inputs: Seq<InputView>, output: OutputView) -> FunctionView {
    FunctionView {
        inputs,
        name: "function"@,
        output,
        cfg: Seq::empty(),
        pubname: "function"@,
    }
}

/// An output that is neither fallible nor optional.
pub open spec fn spec_sample_output(rule: RuleView, unwrapped_type: PathView, future: bool) -> OutputView {
    OutputView { rule, unwrapped_type, fallible: false, optional: false, future }
}

/// The crate `riko_sample` with the module `example` that holds
/// `functions`.
pub open spec fn spec_sample(functions: Seq<FunctionView>) -> CrateView {
    CrateView {
        modules: seq![
            ModuleView { functions, path: seq!["example"@], cfg: Seq::empty() },
        ],
        name: "riko_sample"@,
    }
}

fn sample(functions: Vec<Function>) -> (r: Crate)
    ensures
        r@ == spec_sample(function_views(functions@)),
{
    let mut path: Vec<String> = Vec::new();
    path.push(String::from_str("example"));
    let cfg: Vec<Attribute> = Vec::new();
    let module = Module { functions, path, cfg };
    let mut modules: Vec<Module> = Vec::new();
    proof {
        assert(module@.path =~= seq!["example"@]);
        assert(module@.cfg =~= Seq::empty());
        assert(module_views(modules@.push(module)) =~= seq![module@]);
    }
    modules.push(module);
    Crate { modules, name: String::from_str("riko_sample") }
}

fn sample_function(inputs: Vec<Input>, output: Output) -> (r: Function)
    ensures
        r@ == spec_sample_function(input_views(inputs@), output@),
{
    let cfg: Vec<Attribute> = Vec::new();
    proof {
        assert(attribute_views(cfg@) =~= Seq::empty());
    }
    Function {
        inputs,
        name: String::from_str("function"),
        output,
        cfg,
        pubname: String::from_str("function"),
    }
}

fn one(function: Function) -> (r: Vec<Function>)
    ensures
        function_views(r@) == seq![function@],
{
    let mut functions: Vec<Function> = Vec::new();
    proof {
        assert(function_views(functions@.push(function)) =~= seq![function@]);
    }
    functions.push(function);
    functions
}

fn no_inputs() -> (r: Vec<Input>)
    ensures
        input_views(r@) == Seq::<InputView>::empty(),
{
    let inputs: Vec<Input> = Vec::new();
    proof {
        assert(input_views(inputs@) =~= Seq::<InputView>::empty());
    }
    inputs
}

/// A module without functions.
pub fn empty_module() -> (r: Crate)
    ensures
        r@ == spec_sample(Seq::empty()),
{
    let functions: Vec<Function> = Vec::new();
    proof {
        assert(function_views(functions@) =~= Seq::empty());
    }
    sample(functions)
}

/// `function(&i32, i64) -> String`.
pub fn simple_function() -> (r: Crate)
    ensures
        r@ == spec_sample(
            seq![
                spec_sample_function(
                    seq![
                        InputView {
                            rule: RuleView::I32,
                            borrow: true,
                            unwrapped_type: spec_ident("i32"@),
                        },
                        InputView {
                            rule: RuleView::I64,
                            borrow: false,
                            unwrapped_type: spec_ident("i64"@),
                        },
                    ],
                    spec_sample_output(RuleView::String, spec_ident("String"@), false),
                ),
            ],
        ),
{
    let mut inputs: Vec<Input> = Vec::new();
    let first = Input {
        rule: MarshalingRule::I32,
        borrow: true,
        unwrapped_type: Path::ident("i32"),
    };
    let second = Input {
        rule: MarshalingRule::I64,
        borrow: false,
        unwrapped_type: Path::ident("i64"),
    };
    proof {
        assert(input_views(inputs@.push(first).push(second)) =~= seq![first@, second@]);
    }
    inputs.push(first);
    inputs.push(second);
    let output = Output {
        rule: MarshalingRule::String,
        unwrapped_type: Path::ident("String"),
        fallible: false,
        optional: false,
        future: false,
    };
    sample(one(sample_function(inputs, output)))
}

/// `function() -> crate::Love`, where the result stays in the handle pool.
pub fn returning_object() -> (r: Crate)
    ensures
        r@ == spec_sample(
            seq![
                spec_sample_function(
                    Seq::empty(),
                    spec_sample_output(
                        RuleView::Object,
                        PathView {
                            tokens: "crate :: Love"@,
                            leading_colon: false,
                            last: Some("Love"@),
                            first: ArgumentView::Absent,
                        },
                        false,
                    ),
                ),
            ],
        ),
{
    let love = Path {
        tokens: String::from_str("crate :: Love"),
        leading_colon: false,
        last: Some(String::from_str("Love")),
        first: crate::syntax::Argument::Absent,
    };
    let output = Output {
        rule: MarshalingRule::Object,
        unwrapped_type: love,
        fallible: false,
        optional: false,
        future: false,
    };
    sample(one(sample_function(no_inputs(), output)))
}

/// `function()`.
pub fn function_with_nothing() -> (r: Crate)
    ensures
        r@ == spec_sample(
            seq![
                spec_sample_function(
                    Seq::empty(),
                    spec_sample_output(RuleView::Unit, crate::syntax::unit_path(), false),
                ),
            ],
        ),
{
    sample(one(sample_function(no_inputs(), Output::default())))
}

/// `async function() -> String`.
pub fn function_async() -> (r: Crate)
    ensures
        r@ == spec_sample(
            seq![
                spec_sample_function(
                    Seq::empty(),
                    spec_sample_output(RuleView::String, spec_ident("String"@), true),
                ),
            ],
        ),
{
    let output = Output {
        rule: MarshalingRule::String,
        unwrapped_type: Path::ident("String"),
        fallible: false,
        optional: false,
        future: true,
    };
    sample(one(sample_function(no_inputs(), output)))
}

} // verus!
