//! The function declaration taken apart, and the timed declaration built from it.
use vstd::prelude::*;
use crate::level::LogLevel;

verus! {

/// An attribute written on the function, as the text of its tokens.
#[derive(Clone, Debug)]
pub struct Attr {
    /// Whether it is an inner attribute (`#![...]` at the head of the body).
    pub inner: bool,
    pub text: String,
}

/// [`Attr`] with its text as a character sequence.
pub ghost struct AttrView {
    pub inner: bool,
    pub text: Seq<char>,
}

impl View for Attr {
    type V = AttrView;

    open spec fn view(&self) -> AttrView {
        AttrView { inner: self.inner, text: self.text@ }
    }
}

/// A parsed function declaration, each part as the text of its tokens.
#[derive(Clone, Debug)]
pub struct FnItem {
    /// The attributes, outer and inner, in order.
    pub attrs: Vec<Attr>,
    /// The visibility qualifier; empty for a private function.
    pub vis: String,
    /// The whole signature, from qualifiers to return type.
    pub sig: String,
    /// The function's name.
    pub name: String,
    /// Whether the signature carries `async`.
    pub is_async: bool,
    /// The body, braces included.
    pub block: String,
}

/// [`FnItem`] with its strings as character sequences.
pub ghost struct FnItemView {
    pub attrs: Seq<AttrView>,
    pub vis: Seq<char>,
    pub sig: Seq<char>,
    pub name: Seq<char>,
    pub is_async: bool,
    pub block: Seq<char>,
}

impl View for FnItem {
    type V = FnItemView;

    open spec fn view(&self) -> FnItemView {
        FnItemView {
            attrs: self.attrs@.map_values(|a: Attr| a@),
            vis: self.vis@,
            sig: self.sig@,
            name: self.name@,
            is_async: self.is_async,
            block: self.block@,
        }
    }
}

/// How the original body runs, which decides the clock and the wrapping.
#[derive(PartialEq, Eq, Structural, Clone, Copy, Debug)]
pub enum Execution {
    /// A plain function: the body runs in a closure called at once, timed by
    /// `std`'s monotonic clock.
    Synchronous,
    /// An `async` function: the body runs in an awaited `async` block, timed by
    /// the runtime's clock.
    Suspendable,
}

/// One statement of the timed body.
#[derive(Clone, Debug)]
pub enum Stmt {
    /// Reads the clock into `__start`.
    StartClock(Execution),
    /// Runs the original body (its text) and binds its value to `result`.
    RunBody(Execution, String),
    /// Binds the time elapsed since `__start` to `__duration`.
    StopClock,
    /// Emits the timing record at the severity, naming the function.
    Log(LogLevel, String),
    /// Yields `result` as the function's value.
    ReturnResult,
}

/// [`Stmt`] with its strings as character sequences.
pub ghost enum StmtView {
    StartClock(Execution),
    RunBody(Execution, Seq<char>),
    StopClock,
    Log(LogLevel, Seq<char>),
    ReturnResult,
}

impl View for Stmt {
    type V = StmtView;

    open spec fn view(&self) -> StmtView {
        match self {
            Stmt::StartClock(e) => StmtView::StartClock(*e),
            Stmt::RunBody(e, b) => StmtView::RunBody(*e, b@),
            Stmt::StopClock => StmtView::StopClock,
            Stmt::Log(l, n) => StmtView::Log(*l, n@),
            Stmt::ReturnResult => StmtView::ReturnResult,
        }
    }
}

/// The rewritten declaration: the original's outer attributes, visibility and
/// signature, then a body that opens with the original's inner attributes.
#[derive(Clone, Debug)]
pub struct TimedFn {
    pub attrs: Vec<String>,
    pub vis: String,
    pub sig: String,
    pub inner_attrs: Vec<String>,
    pub body: Vec<Stmt>,
}

/// [`TimedFn`] with its strings as character sequences.
pub ghost struct TimedFnView {
    pub attrs: Seq<Seq<char>>,
    pub vis: Seq<char>,
    pub sig: Seq<char>,
    pub inner_attrs: Seq<Seq<char>>,
    pub body: Seq<StmtView>,
}

impl View for TimedFn {
    type V = TimedFnView;

    open spec fn view(&self) -> TimedFnView {
        TimedFnView {
            attrs: self.attrs.deep_view(),
            vis: self.vis@,
            sig: self.sig@,
            inner_attrs: self.inner_attrs.deep_view(),
            body: self.body@.map_values(|s: Stmt| s@),
        }
    }
}

/// The texts of the attributes of the given kind (inner or outer), in order.
pub open spec fn attr_texts(attrs: Seq<AttrView>, inner: bool) -> Seq<Seq<char>>
    decreases attrs.len(),
{
    if attrs.len() == 0 {
        Seq::empty()
    } else if attrs.last().inner == inner {
        attr_texts(attrs.drop_last(), inner).push(attrs.last().text)
    } else {
        attr_texts(attrs.drop_last(), inner)
    }
}

/// Splits the attributes into the outer ones and the inner ones, keeping order.
pub fn split_attrs(attrs: &Vec<Attr>) -> (r: (Vec<String>, Vec<String>))
    ensures
        r.0.deep_view() == attr_texts(attrs@.map_values(|a: Attr| a@), false),
        r.1.deep_view() == attr_texts(attrs@.map_values(|a: Attr| a@), true),
{
    let ghost av = attrs@.map_values(|a: Attr| a@);
    let mut outer: Vec<String> = Vec::new();
    let mut inner: Vec<String> = Vec::new();
    let mut i: usize = 0;
    assert(av.take(0) =~= Seq::<AttrView>::empty());
    while i < attrs.len()
        invariant
            av == attrs@.map_values(|a: Attr| a@),
            i <= attrs.len(),
            outer.deep_view() == attr_texts(av.take(i as int), false),
            inner.deep_view() == attr_texts(av.take(i as int), true),
        decreases attrs.len() - i,
    {
        assert(av.take(i + 1).drop_last() =~= av.take(i as int));
        let ghost prev_outer = outer.deep_view();
        let ghost prev_inner = inner.deep_view();
        if attrs[i].inner {
            inner.push(attrs[i].text.clone());
            assert(inner.deep_view() =~= prev_inner.push(av[i as int].text));
        } else {
            outer.push(attrs[i].text.clone());
            assert(outer.deep_view() =~= prev_outer.push(av[i as int].text));
        }
        i = i + 1;
    }
    assert(av.take(i as int) =~= av);
    (outer, inner)
}

/// How a function with the given `async` flag runs.
pub open spec fn execution_of(is_async: bool) -> Execution {
    if is_async {
        Execution::Suspendable
    } else {
        Execution::Synchronous
    }
}

/// The timed body: start the clock, run the original body keeping its value,
/// stop the clock, emit one record, yield the value.
pub open spec fn timed_body(f: FnItemView, level: LogLevel) -> Seq<StmtView> {
    let e = execution_of(f.is_async);
    seq![
        StmtView::StartClock(e),
        StmtView::RunBody(e, f.block),
        StmtView::StopClock,
        StmtView::Log(level, f.name),
        StmtView::ReturnResult,
    ]
}

/// The declaration that replaces `f` when its records go out at `level`.
pub open spec fn transformed(f: FnItemView, level: LogLevel) -> TimedFnView {
    TimedFnView {
        attrs: attr_texts(f.attrs, false),
        vis: f.vis,
        sig: f.sig,
        inner_attrs: attr_texts(f.attrs, true),
        body: timed_body(f, level),
    }
}

/// Builds the timed declaration of `f`, whose record is emitted at `level`.
pub fn transform(f: &FnItem, level: LogLevel) -> (r: TimedFn)
    ensures
        r@ == transformed(f@, level),
{
    let e = if f.is_async {
        Execution::Suspendable
    } else {
        Execution::Synchronous
    };
    let mut body: Vec<Stmt> = Vec::new();
    body.push(Stmt::StartClock(e));
    body.push(Stmt::RunBody(e, f.block.clone()));
    body.push(Stmt::StopClock);
    body.push(Stmt::Log(level, f.name.clone()));
    body.push(Stmt::ReturnResult);
    let (attrs, inner_attrs) = split_attrs(&f.attrs);
    let r = TimedFn { attrs, vis: f.vis.clone(), sig: f.sig.clone(), inner_attrs, body };
    assert(r@.body =~= timed_body(f@, level));
    r
}

} // verus!
