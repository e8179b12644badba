use time_it::{emit, expand, stmt_source, time_it, transform};
use time_it::{ArgError, Attr, Execution, FnItem, LogLevel, Stmt, TimeItError};

fn add_item() -> FnItem {
    FnItem {
        attrs: vec![],
        vis: String::new(),
        sig: "fn add(a: Int, b: Int) -> Int".to_string(),
        name: "add".to_string(),
        is_async: false,
        block: "{ a + b }".to_string(),
    }
}

#[test]
fn synchronous_body_in_order() {
    let t = transform(&add_item(), LogLevel::Debug);
    assert!(t.attrs.is_empty());
    assert!(t.inner_attrs.is_empty());
    assert_eq!(t.vis, "");
    assert_eq!(t.sig, "fn add(a: Int, b: Int) -> Int");
    assert_eq!(t.body.len(), 5);
    assert!(matches!(t.body[0], Stmt::StartClock(Execution::Synchronous)));
    assert!(matches!(&t.body[1], Stmt::RunBody(Execution::Synchronous, b) if b == "{ a + b }"));
    assert!(matches!(t.body[2], Stmt::StopClock));
    assert!(matches!(&t.body[3], Stmt::Log(LogLevel::Debug, n) if n == "add"));
    assert!(matches!(t.body[4], Stmt::ReturnResult));
}

#[test]
fn synchronous_text() {
    let text = emit(&transform(&add_item(), LogLevel::Debug));
    assert_eq!(
        text,
        "fn add(a: Int, b: Int) -> Int { let __start = std::time::Instant::now(); \
         let result = (|| { a + b })(); let __duration = __start.elapsed(); \
         tracing::debug!(\"[{}]: Execution time: {:?}\", stringify!(add), __duration); result }"
    );
}

#[test]
fn suspendable_text() {
    let item = FnItem {
        attrs: vec![
            Attr { inner: false, text: "#[inline]".to_string() },
            Attr { inner: true, text: "#![allow(unused)]".to_string() },
            Attr { inner: false, text: "#[must_use]".to_string() },
        ],
        vis: "pub".to_string(),
        sig: "async fn fetch() -> u8".to_string(),
        name: "fetch".to_string(),
        is_async: true,
        block: "{ 7 }".to_string(),
    };
    let text = emit(&transform(&item, LogLevel::Warn));
    assert_eq!(
        text,
        "#[inline] #[must_use] pub async fn fetch() -> u8 { #![allow(unused)] \
         let __start = tokio::time::Instant::now(); \
         let result = async move { { 7 } }.await; let __duration = __start.elapsed(); \
         tracing::warn!(\"[{}]: Execution time: {:?}\", stringify!(fetch), __duration); result }"
    );
}

#[test]
fn log_statement_per_level() {
    let cases = [
        (LogLevel::Trace, "trace"),
        (LogLevel::Debug, "debug"),
        (LogLevel::Info, "info"),
        (LogLevel::Warn, "warn"),
        (LogLevel::Error, "error"),
    ];
    for (level, word) in cases {
        let s = stmt_source(&Stmt::Log(level, "f".to_string()));
        assert_eq!(
            s,
            format!("tracing::{}!(\"[{{}}]: Execution time: {{:?}}\", stringify!(f), __duration);", word)
        );
    }
    assert_eq!(stmt_source(&Stmt::ReturnResult), "result");
    assert_eq!(stmt_source(&Stmt::StopClock), "let __duration = __start.elapsed();");
}

#[test]
fn expand_with_literal_values() {
    let text = expand(&add_item(), &vec!["Error".to_string()]).unwrap();
    assert!(text.contains("tracing::error!"));
    assert!(matches!(
        expand(&add_item(), &vec!["x".to_string(), "y".to_string()]),
        Err(ArgError::MultipleArguments)
    ));
}

#[test]
fn add_without_argument() {
    let text = time_it("", "fn add(a: Int, b: Int) -> Int { a + b }").unwrap();
    let start = text.find(" { let __start").unwrap();
    let header = &text[..start];
    assert!(header.starts_with("fn add"));
    assert_eq!(header.replace(' ', ""), "fnadd(a:Int,b:Int)->Int");
    let body = &text[start..];
    let steps = [
        "let __start = std::time::Instant::now();",
        "let result = (|| {",
        "a + b",
        "})();",
        "let __duration = __start.elapsed();",
        "tracing::debug!(\"[{}]: Execution time: {:?}\", stringify!(add), __duration);",
        "result }",
    ];
    let mut at = 0;
    for step in steps {
        let found = body[at..].find(step).unwrap();
        at += found + step.len();
    }
    assert_eq!(at, body.len());
    assert_eq!(body.matches("tracing::").count(), 1);
}

#[test]
fn async_with_warn() {
    let text = time_it("\"warn\"", "pub async fn slow() { work().await; }").unwrap();
    assert!(text.starts_with("pub async fn slow"));
    assert!(text.contains("let __start = tokio::time::Instant::now();"));
    assert!(text.contains("let result = async move {"));
    assert!(text.contains("}.await;"));
    assert!(!text.contains("(||"));
    assert!(text.contains("tracing::warn!(\"[{}]: Execution time: {:?}\", stringify!(slow), __duration);"));
    assert!(text.ends_with("result }"));
}

#[test]
fn attributes_and_visibility_kept() {
    let text = time_it("\"info\"", "#[inline] pub(crate) fn f(x: u8) -> u8 { x }").unwrap();
    let start = text.find(" { let __start").unwrap();
    assert_eq!(text[..start].replace(' ', ""), "#[inline]pub(crate)fnf(x:u8)->u8");
    assert!(text.contains("stringify!(f)"));
    assert!(text.contains("tracing::info!"));
}

#[test]
fn not_a_function_is_a_syntax_error() {
    assert!(matches!(time_it("", "struct S;"), Err(TimeItError::Syntax(_))));
    assert!(matches!(time_it("1", "struct S;"), Err(TimeItError::Syntax(_))));
    assert!(matches!(time_it("", "fn broken( {"), Err(TimeItError::Syntax(_))));
}

#[test]
fn bad_argument_on_a_function() {
    let item = "fn f() {}";
    assert!(matches!(
        time_it("\"debug\", \"info\"", item),
        Err(TimeItError::Argument(ArgError::MultipleArguments))
    ));
    assert!(matches!(time_it("1", item), Err(TimeItError::Argument(ArgError::Malformed(_)))));
    match time_it("\"verbose\"", item) {
        Err(TimeItError::Argument(ArgError::UnknownLevel(name))) => assert_eq!(name, "verbose"),
        other => panic!("unexpected {:?}", other),
    }
}

#[test]
fn inner_attributes_open_the_body() {
    let text = time_it("", "#[cold] fn f() { #![allow(unused)] let x = 1; }").unwrap();
    let open = text.find(" { ").unwrap();
    assert_eq!(text[..open].replace(' ', ""), "#[cold]fnf()");
    let body = &text[open + 3..];
    assert!(body.replace(" ", "").starts_with("#![allow(unused)]"));
    assert_eq!(body.matches("allow").count(), 1);
    let start = body.find("let __start").unwrap();
    assert!(body[..start].contains("allow"));
}
