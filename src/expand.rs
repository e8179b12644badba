//! The whole rewrite: argument and function in, timed declaration out.
use vstd::prelude::*;
use crate::emit::{emit, fn_text, header_text};
use crate::function::{
    attr_texts, transform, transformed, Execution, FnItem, FnItemView, StmtView, TimedFnView,
};
use crate::level::{
    level_from_literals, level_named, level_of_literals, lemma_name_in_any_case, same_ignoring_ascii_case,
    ArgError, ArgErrorView, LogLevel,
};
use crate::syntax::{parse_fn_item, string_literals};

verus! {

/// Why a rewrite failed.
#[derive(Clone, Debug)]
pub enum TimeItError {
    /// The annotated item is not a function declaration; it holds the parser's message.
    Syntax(String),
    /// The attribute's argument was rejected.
    Argument(ArgError),
}

/// The text that replaces `f` when the argument's literals are `lits`, or why
/// the argument was rejected.
pub open spec fn expanded(f: FnItemView, lits: Seq<Seq<char>>) -> Result<Seq<char>, ArgErrorView> {
    match level_of_literals(lits) {
        Ok(l) => Ok(fn_text(transformed(f, l))),
        Err(e) => Err(e),
    }
}

/// The text that replaces the function `f`, when the attribute's argument
/// holds string literals with the values `lits`.
pub fn expand(f: &FnItem, lits: &Vec<String>) -> (r: Result<String, ArgError>)
    ensures
        match expanded(f@, lits.deep_view()) {
            Ok(t) => r matches Ok(s) && s@ == t,
            Err(e) => r matches Err(x) && x@ == e,
        },
{
    let level = level_from_literals(lits)?;
    let timed = transform(f, level);
    Ok(emit(&timed))
}

/// Rewrites the function whose source is `item`, annotated with the argument
/// `attr`, into one that records its execution time. The item is read first:
/// if it is not a function, that error comes before any about the argument.
/// How `syn` reads the two texts depends on where it runs, so what is stated
/// holds whatever it read: the result is [`expand`]'s on the parts and literal
/// values that were read, and an empty argument selects `Debug`.
pub fn time_it(attr: &str, item: &str) -> (r: Result<String, TimeItError>)
    ensures
        r matches Ok(s) ==> exists|f: FnItemView, lits: Seq<Seq<char>>|
            #[trigger] expanded(f, lits) == Ok::<Seq<char>, ArgErrorView>(s@),
        attr@.len() == 0 ==> !(r matches Err(TimeItError::Argument(_))),
        attr@.len() == 0 ==> (r matches Ok(s) ==> exists|f: FnItemView|
            s@ == fn_text(#[trigger] transformed(f, LogLevel::Debug))),
        r matches Err(TimeItError::Argument(ArgError::UnknownLevel(n))) ==> level_named(n@) is None,
        r matches Err(TimeItError::Argument(e)) ==> (e is Malformed || exists|
            f: FnItemView,
            lits: Seq<Seq<char>>,
        | #[trigger] expanded(f, lits) == Err::<Seq<char>, ArgErrorView>(e@)),
{
    let f = match parse_fn_item(item) {
        Ok(f) => f,
        Err(e) => return Err(TimeItError::Syntax(e.to_string())),
    };
    let lits = match string_literals(attr) {
        Ok(lits) => lits,
        Err(e) => return Err(TimeItError::Argument(ArgError::Malformed(e.to_string()))),
    };
    let r = expand(&f, &lits);
    proof {
        if attr@.len() == 0 {
            assert(lits.deep_view() =~= Seq::<Seq<char>>::empty());
        }
    }
    match r {
        Ok(s) => {
            assert(expanded(f@, lits.deep_view()) == Ok::<Seq<char>, ArgErrorView>(s@));
            Ok(s)
        },
        Err(e) => {
            assert(expanded(f@, lits.deep_view()) == Err::<Seq<char>, ArgErrorView>(e@));
            Err(TimeItError::Argument(e))
        },
    }
}

/// A synchronous function annotated without an argument keeps its outer
/// attributes, visibility and signature, and its new body, after its inner
/// attributes, in order, reads `std`'s clock,
/// calls the original body wrapped as a closure, takes the elapsed time, emits
/// one `Debug` record naming the function, and yields the body's value.
pub proof fn lemma_synchronous_default(f: FnItemView)
    requires
        !f.is_async,
    ensures
        expanded(f, Seq::empty()) == Ok::<Seq<char>, ArgErrorView>(
            fn_text(
                TimedFnView {
                    attrs: attr_texts(f.attrs, false),
                    vis: f.vis,
                    sig: f.sig,
                    inner_attrs: attr_texts(f.attrs, true),
                    body: seq![
                        StmtView::StartClock(Execution::Synchronous),
                        StmtView::RunBody(Execution::Synchronous, f.block),
                        StmtView::StopClock,
                        StmtView::Log(LogLevel::Debug, f.name),
                        StmtView::ReturnResult,
                    ],
                },
            ),
        ),
{
    assert(transformed(f, LogLevel::Debug).body =~= seq![
        StmtView::StartClock(Execution::Synchronous),
        StmtView::RunBody(Execution::Synchronous, f.block),
        StmtView::StopClock,
        StmtView::Log(LogLevel::Debug, f.name),
        StmtView::ReturnResult,
    ]);
}

/// An `async` function annotated with `"warn"` is rewritten in the same shape,
/// but reads the runtime's clock, awaits the original body in an `async`
/// block, and emits its one record at `Warn`.
pub proof fn lemma_suspendable_warn(f: FnItemView)
    requires
        f.is_async,
    ensures
        expanded(f, seq!["warn"@]) == Ok::<Seq<char>, ArgErrorView>(
            fn_text(
                TimedFnView {
                    attrs: attr_texts(f.attrs, false),
                    vis: f.vis,
                    sig: f.sig,
                    inner_attrs: attr_texts(f.attrs, true),
                    body: seq![
                        StmtView::StartClock(Execution::Suspendable),
                        StmtView::RunBody(Execution::Suspendable, f.block),
                        StmtView::StopClock,
                        StmtView::Log(LogLevel::Warn, f.name),
                        StmtView::ReturnResult,
                    ],
                },
            ),
        ),
{
    reveal_strlit("warn");
    reveal_strlit("Warn");
    assert(same_ignoring_ascii_case("warn"@, LogLevel::Warn.name()));
    lemma_name_in_any_case("warn"@, LogLevel::Warn);
    assert(transformed(f, LogLevel::Warn).body =~= seq![
        StmtView::StartClock(Execution::Suspendable),
        StmtView::RunBody(Execution::Suspendable, f.block),
        StmtView::StopClock,
        StmtView::Log(LogLevel::Warn, f.name),
        StmtView::ReturnResult,
    ]);
}

/// Whatever the function and the accepted argument, the replacement keeps the
/// outer attributes, visibility and signature, and its text opens with them
/// exactly as they were written; the inner attributes open its body.
pub proof fn lemma_signature_kept(f: FnItemView, lits: Seq<Seq<char>>)
    requires
        expanded(f, lits) is Ok,
    ensures
        ({
            let l = level_of_literals(lits)->Ok_0;
            let t = expanded(f, lits)->Ok_0;
            let h = header_text(attr_texts(f.attrs, false), f.vis, f.sig);
            &&& transformed(f, l).attrs == attr_texts(f.attrs, false)
            &&& transformed(f, l).inner_attrs == attr_texts(f.attrs, true)
            &&& transformed(f, l).vis == f.vis
            &&& transformed(f, l).sig == f.sig
            &&& h.len() <= t.len()
            &&& t.subrange(0, h.len() as int) == h
        }),
{
    let l = level_of_literals(lits)->Ok_0;
    let h = header_text(attr_texts(f.attrs, false), f.vis, f.sig);
    let t = fn_text(transformed(f, l));
    assert(t.subrange(0, h.len() as int) =~= h);
}

} // verus!
