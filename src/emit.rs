//! Serialization of the timed declaration into source text.
use vstd::prelude::*;
use crate::function::{Execution, Stmt, StmtView, TimedFn, TimedFnView};
use crate::level::LogLevel;

verus! {

/// The expression that reads the clock for the given way of running.
pub open spec fn clock_text(e: Execution) -> Seq<char> {
    match e {
        Execution::Synchronous => "std::time::Instant::now()"@,
        Execution::Suspendable => "tokio::time::Instant::now()"@,
    }
}

/// The `tracing` macro that emits an event at `l`.
pub open spec fn level_macro(l: LogLevel) -> Seq<char> {
    match l {
        LogLevel::Trace => "trace"@,
        LogLevel::Debug => "debug"@,
        LogLevel::Info => "info"@,
        LogLevel::Warn => "warn"@,
        LogLevel::Error => "error"@,
    }
}

/// The source text of one statement.
pub open spec fn stmt_text(s: StmtView) -> Seq<char> {
    match s {
        StmtView::StartClock(e) => "let __start = "@ + clock_text(e) + ";"@,
        StmtView::RunBody(Execution::Synchronous, b) => "let result = (|| "@ + b + ")();"@,
        StmtView::RunBody(Execution::Suspendable, b) => "let result = async move { "@ + b
            + " }.await;"@,
        StmtView::StopClock => "let __duration = __start.elapsed();"@,
        StmtView::Log(l, n) => "tracing::"@ + level_macro(l)
            + "!(\"[{}]: Execution time: {:?}\", stringify!("@ + n + "), __duration);"@,
        StmtView::ReturnResult => "result"@,
    }
}

/// The parts in order, each followed by one space.
pub open spec fn join_spaced(parts: Seq<Seq<char>>) -> Seq<char>
    decreases parts.len(),
{
    if parts.len() == 0 {
        Seq::empty()
    } else {
        join_spaced(parts.drop_last()) + parts.last() + " "@
    }
}

/// The visibility followed by a space; nothing for a private function.
pub open spec fn vis_text(vis: Seq<char>) -> Seq<char> {
    if vis.len() == 0 {
        Seq::empty()
    } else {
        vis + " "@
    }
}

/// Attributes, visibility and signature, as they open the declaration.
pub open spec fn header_text(attrs: Seq<Seq<char>>, vis: Seq<char>, sig: Seq<char>) -> Seq<char> {
    join_spaced(attrs) + vis_text(vis) + sig
}

/// The source text of the statements, in order.
pub open spec fn body_text(body: Seq<StmtView>) -> Seq<char> {
    join_spaced(body.map_values(|s: StmtView| stmt_text(s)))
}

/// The source text of a timed declaration.
pub open spec fn fn_text(f: TimedFnView) -> Seq<char> {
    header_text(f.attrs, f.vis, f.sig) + " { "@ + join_spaced(f.inner_attrs) + body_text(f.body)
        + "}"@
}

proof fn lemma_join_spaced_step(parts: Seq<Seq<char>>, i: int)
    requires
        0 <= i < parts.len(),
    ensures
        join_spaced(parts.take(i + 1)) == join_spaced(parts.take(i)) + parts[i] + " "@,
{
    assert(parts.take(i + 1).drop_last() =~= parts.take(i));
}

/// Appends `part` and one space.
fn push_spaced(out: &mut String, part: &str)
    ensures
        final(out)@ == old(out)@ + part@ + " "@,
{
    out.append(part);
    out.append(" ");
}

/// Appends each part followed by one space.
fn push_all_spaced(out: &mut String, parts: &Vec<String>)
    ensures
        final(out)@ == old(out)@ + join_spaced(parts.deep_view()),
{
    let ghost start = out@;
    let ghost ps = parts.deep_view();
    let mut i: usize = 0;
    assert(ps.take(0) =~= Seq::<Seq<char>>::empty());
    while i < parts.len()
        invariant
            ps == parts.deep_view(),
            i <= parts.len(),
            out@ == start + join_spaced(ps.take(i as int)),
        decreases parts.len() - i,
    {
        proof {
            lemma_join_spaced_step(ps, i as int);
        }
        push_spaced(out, parts[i].as_str());
        assert(out@ =~= start + join_spaced(ps.take(i + 1)));
        i = i + 1;
    }
    assert(ps.take(i as int) =~= ps);
}

/// The source text of the statement `s`.
pub fn stmt_source(s: &Stmt) -> (r: String)
    ensures
        r@ == stmt_text(s@),
{
    let mut out = String::new();
    match s {
        Stmt::StartClock(e) => {
            out.append("let __start = ");
            match e {
                Execution::Synchronous => out.append("std::time::Instant::now()"),
                Execution::Suspendable => out.append("tokio::time::Instant::now()"),
            }
            out.append(";");
        },
        Stmt::RunBody(Execution::Synchronous, b) => {
            out.append("let result = (|| ");
            out.append(b.as_str());
            out.append(")();");
        },
        Stmt::RunBody(Execution::Suspendable, b) => {
            out.append("let result = async move { ");
            out.append(b.as_str());
            out.append(" }.await;");
        },
        Stmt::StopClock => {
            out.append("let __duration = __start.elapsed();");
        },
        Stmt::Log(l, n) => {
            out.append("tracing::");
            match l {
                LogLevel::Trace => out.append("trace"),
                LogLevel::Debug => out.append("debug"),
                LogLevel::Info => out.append("info"),
                LogLevel::Warn => out.append("warn"),
                LogLevel::Error => out.append("error"),
            }
            out.append("!(\"[{}]: Execution time: {:?}\", stringify!(");
            out.append(n.as_str());
            out.append("), __duration);");
        },
        Stmt::ReturnResult => {
            out.append("result");
        },
    }
    assert(out@ =~= stmt_text(s@));
    out
}

/// The source text of the declaration `f`.
pub fn emit(f: &TimedFn) -> (r: String)
    ensures
        r@ == fn_text(f@),
{
    let mut out = String::new();
    push_all_spaced(&mut out, &f.attrs);
    if f.vis.as_str().unicode_len() > 0 {
        push_spaced(&mut out, f.vis.as_str());
    }
    out.append(f.sig.as_str());
    out.append(" { ");
    push_all_spaced(&mut out, &f.inner_attrs);
    let ghost texts = f@.body.map_values(|s: StmtView| stmt_text(s));
    let ghost start = out@;
    let mut j: usize = 0;
    assert(texts.take(0) =~= Seq::<Seq<char>>::empty());
    while j < f.body.len()
        invariant
            texts == f@.body.map_values(|s: StmtView| stmt_text(s)),
            texts.len() == f.body@.len(),
            j <= f.body.len(),
            out@ == start + join_spaced(texts.take(j as int)),
        decreases f.body.len() - j,
    {
        proof {
            lemma_join_spaced_step(texts, j as int);
        }
        let t = stmt_source(&f.body[j]);
        push_spaced(&mut out, t.as_str());
        assert(out@ =~= start + join_spaced(texts.take(j + 1)));
        j = j + 1;
    }
    assert(texts.take(j as int) =~= texts);
    out.append("}");
    assert(out@ =~= fn_text(f@));
    out
}

} // verus!
