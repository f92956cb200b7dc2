use anyhow::{
    Adhoc, Boxed, BoxedError, ConcreteError, Context, DisplayError, Error, Failure, MessageError,
    StdError, Trait, TypeTag, Chain,
};
use std::backtrace::Backtrace;

fn concrete(id: u64, text: &str, source: Option<Failure>) -> ConcreteError {
    ConcreteError {
        type_id: id,
        display: text.to_string(),
        debug: format!("Concrete({:?})", text),
        source: source.map(Box::new),
        backtrace: None,
    }
}

fn leaf(text: &str) -> Failure {
    Failure::Display(DisplayError(text.to_string()))
}

fn three_links() -> Error {
    // A -> B -> C, with C terminal.
    let c = leaf("C");
    let b = Failure::Concrete(concrete(2, "B", Some(c)));
    Error::new(concrete(1, "A", Some(b)))
}

fn texts(chain: &mut Chain, forward: bool) -> Vec<String> {
    let mut out = Vec::new();
    loop {
        let next = if forward { chain.next() } else { chain.next_back() };
        match next {
            Some(f) => out.push(f.to_string()),
            None => return out,
        }
    }
}

#[test]
fn chain_len_matches_iteration() {
    let e = three_links();
    assert_eq!(e.chain().len(), 3);
    assert_eq!(texts(&mut e.chain(), true), vec!["A", "B", "C"]);
    assert_eq!(texts(&mut e.chain(), false), vec!["C", "B", "A"]);
    assert_eq!(e.chain().size_hint(), (3, Some(3)));
}

#[test]
fn chain_backward_after_forward() {
    let e = three_links();
    let mut chain = e.chain();
    assert_eq!(chain.next().unwrap().to_string(), "A");
    assert_eq!(chain.next_back().unwrap().to_string(), "C");
    assert_eq!(chain.len(), 1);
    assert_eq!(chain.next_back().unwrap().to_string(), "B");
    assert!(chain.next_back().is_none());
    assert!(chain.next().is_none());
    assert_eq!(chain.len(), 0);
}

#[test]
fn chain_default_is_empty() {
    let mut chain = Chain::default();
    assert_eq!(chain.len(), 0);
    assert!(chain.next().is_none());
    assert!(chain.next_back().is_none());
}

#[test]
fn root_cause_is_last_link() {
    let e = three_links();
    assert_eq!(e.root_cause().to_string(), "C");
    let single = Error::from_display("only".to_string(), None);
    assert_eq!(single.root_cause().to_string(), "only");
}

#[test]
fn downcast_to_built_type() {
    let e = Trait.new(concrete(7, "seven", None));
    match e.downcast(TypeTag::Concrete(7)) {
        Ok(Failure::Concrete(c)) => {
            assert_eq!(c.type_id, 7);
            assert_eq!(c.display, "seven");
            assert_eq!(c.debug, "Concrete(\"seven\")");
            assert!(c.source.is_none());
        }
        _ => panic!("downcast to the built type failed"),
    }
}

#[test]
fn downcast_to_other_type_returns_container() {
    let e = Trait.new(concrete(7, "seven", None));
    let before = e.to_string();
    let e = match e.downcast(TypeTag::Concrete(8)) {
        Ok(_) => panic!("downcast to another type succeeded"),
        Err(e) => e,
    };
    assert_eq!(e.to_string(), before);
    let e = match e.downcast(TypeTag::Message) {
        Ok(_) => panic!("downcast to another type succeeded"),
        Err(e) => e,
    };
    assert_eq!(e.to_string(), "seven");
    assert!(e.downcast_ref(TypeTag::Context).is_none());
    assert_eq!(e.downcast_ref(TypeTag::Concrete(7)).unwrap().to_string(), "seven");
}

#[test]
fn downcast_mut_changes_payload() {
    let mut e = Adhoc.new(MessageError { display: "m".to_string(), debug: "\"m\"".to_string() });
    assert!(e.downcast_mut(TypeTag::Display).is_none());
    if let Some(Failure::Message(m)) = e.downcast_mut(TypeTag::Message) {
        m.display = "changed".to_string();
    }
    assert_eq!(e.to_string(), "changed");
}

#[test]
fn context_text_and_extended() {
    let e = Error::from_display("inner".to_string(), None);
    let c = e.context("ctx".to_string());
    assert_eq!(c.to_string(), "ctx");
    assert_eq!(c.display_extended(), "ctx: inner");
    let c2 = c.context("outer".to_string());
    assert_eq!(c2.display_extended(), "outer: ctx: inner");
    assert_eq!(c2.chain().len(), 3);
}

#[test]
fn ext_context_on_concrete_error() {
    let e = concrete(1, "disk full", Some(leaf("quota")));
    let c = e.ext_context("saving".to_string());
    assert_eq!(c.to_string(), "saving");
    assert_eq!(c.display_extended(), "saving: disk full: quota");
}

#[test]
fn result_context() {
    let ok: Result<u32, Error> = Ok(3);
    assert_eq!(ok.context("unused".to_string()).ok().unwrap(), 3);
    let err: Result<u32, Error> = Err(Error::from_display("low".to_string(), None));
    let e = err.context("high".to_string()).unwrap_err();
    assert_eq!(e.display_extended(), "high: low");
    let err2: Result<u32, ConcreteError> = Err(concrete(4, "raw", None));
    let e2 = err2.with_context(|| "lazy".to_string()).unwrap_err();
    assert_eq!(e2.display_extended(), "lazy: raw");
}

#[test]
fn with_context_is_lazy_on_success() {
    let ok: Result<u32, Error> = Ok(1);
    let r = ok.with_context(|| -> String { panic!("context computed on success") });
    assert_eq!(r.ok().unwrap(), 1);
}

#[test]
fn option_context_has_no_cause() {
    let none: Option<u8> = None;
    let e = none.context("there is no value".to_string()).unwrap_err();
    assert_eq!(e.to_string(), "there is no value");
    assert_eq!(e.display_extended(), "there is no value");
    assert_eq!(e.chain().len(), 1);
    let none2: Option<u8> = None;
    let e2 = none2.with_context(|| "lazy none".to_string()).unwrap_err();
    assert_eq!(e2.to_string(), "lazy none");
    assert_eq!(Some(5u8).context("x".to_string()).ok().unwrap(), 5);
}

#[test]
fn debug_single_cause_unnumbered() {
    let e = Error::from_display("inner\nsecond line".to_string(), None).context("head".to_string());
    let d = e.debug();
    assert!(d.starts_with("head\n\nCaused by:\n    inner\n    second line"));
}

#[test]
fn debug_two_causes_numbered() {
    let inner = Error::from_display("cause2".to_string(), None);
    let mid = inner.context("cause1\nmore".to_string());
    let e = mid.context("head".to_string());
    let d = e.debug();
    assert!(d.starts_with("head\n\nCaused by:\n    1: cause1\n       more\n    2: cause2"));
}

#[test]
fn wrapping_keeps_trace() {
    let mut inner = concrete(9, "traced", None);
    inner.backtrace = Some(Backtrace::force_capture());
    let original = inner.backtrace.as_ref().unwrap().to_string();
    let wrapped = inner.ext_context("ctx".to_string());
    assert_eq!(wrapped.backtrace().unwrap().to_string(), original);
    let twice = wrapped.context("outer".to_string());
    assert_eq!(twice.backtrace().unwrap().to_string(), original);
    assert!(twice.debug().ends_with(original.trim_end()));
}

#[test]
fn boxed_keeps_own_cause_and_text() {
    let b = Box::new(Failure::Concrete(concrete(3, "boxed", Some(leaf("under")))));
    let e = Boxed.new(b);
    assert_eq!(e.to_string(), "boxed");
    assert_eq!(e.display_extended(), "boxed: under");
    assert!(e.downcast_ref(TypeTag::Boxed).is_some());
    let bx = BoxedError(Box::new(leaf("x")));
    assert_eq!(Failure::Boxed(bx).to_string(), "x");
}

#[test]
fn adhoc_has_no_cause() {
    let e = Adhoc.new(MessageError { display: "msg".to_string(), debug: "\"msg\"".to_string() });
    assert_eq!(e.chain().len(), 1);
    assert!(e.backtrace().is_some());
}

#[test]
fn debug_two_stacked_causes() {
    let e = Error::from_display("cause2".to_string(), None)
        .context("cause1".to_string())
        .context("head".to_string());
    let d = e.debug();
    assert!(d.starts_with("head\n\nCaused by:\n"));
    assert!(d.contains("   1: cause1"));
    assert!(d.contains("   2: cause2"));
    assert!(d.starts_with("head\n\nCaused by:\n    1: cause1\n    2: cause2"));
}

#[test]
fn context_payload_debug_form() {
    let e = Error::from_display("inner".to_string(), None).context("say \"hi\"\n".to_string());
    let d = e.downcast_ref(TypeTag::Context).unwrap().debug();
    assert_eq!(d, "Error { context: \"say \\\"hi\\\"\\n\", source: inner }");
    let m = Failure::Message(MessageError { display: "m".to_string(), debug: "M!".to_string() });
    assert_eq!(m.debug(), "M!");
    assert_eq!(leaf("shown").debug(), "shown");
}
