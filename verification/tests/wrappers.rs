use failure::{DisplayText, Error, ErrorMessage, Fail, ResultExt};

fn leaf(text: &str) -> ErrorMessage<String> {
    ErrorMessage::new(text.to_string())
}

#[test]
fn test_compat_description_unchanged() {
    let r: Result<i32, ErrorMessage<String>> = Err(leaf("My custom error message"));
    let c = r.compat().unwrap_err();
    assert_eq!(c.description(), "My custom error message");
}

#[test]
fn test_compat_cause_text_without_cause() {
    let r: Result<i32, ErrorMessage<String>> = Err(leaf("My custom error message"));
    let c = r.compat().unwrap_err();
    assert_eq!(c.cause_text(), None);
}

#[test]
fn test_compat_cause_text_with_cause() {
    let wrapped = Err::<(), _>(leaf("root")).context("level one".to_string()).unwrap_err();
    let c = Err::<(), _>(wrapped).compat().unwrap_err();
    assert_eq!(c.description(), "level one");
    assert_eq!(c.cause_text(), Some("root".to_string()));
}

#[test]
fn test_compat_get_ref_and_into_inner() {
    let r: Result<i32, ErrorMessage<String>> = Err(leaf("My custom error message"));
    let c = r.compat().unwrap_err();
    assert_eq!(c.get_ref().display_text(), "My custom error message");
    assert_eq!(c.into_inner().display_text(), "My custom error message");
}

#[test]
fn test_erased_compat_description_unchanged() {
    let erased = Error::from_fail(&leaf("My custom error message"));
    let r: Result<i32, Error> = Err(erased);
    let c = r.compat().unwrap_err();
    assert_eq!(c.description(), "My custom error message");
    assert!(c.get_ref().causes().is_empty());
}

#[test]
fn test_error_message_has_no_cause() {
    let e = leaf("My custom error message");
    assert_eq!(e.display_text(), "My custom error message");
    assert!(e.cause_texts().is_empty());
}

#[test]
fn test_erasure_keeps_text_and_chain() {
    let wrapped = Err::<(), _>(leaf("root")).context("level one".to_string()).unwrap_err();
    let erased = Error::from_fail(&wrapped);
    assert_eq!(erased.text().as_str(), "level one");
    assert_eq!(erased.causes(), &vec!["root".to_string()]);
    assert_eq!(
        erased.chain_texts(),
        vec!["level one".to_string(), "root".to_string()]
    );
    assert_eq!(erased.display_text(), "level one");
}

#[test]
fn test_context_get_context() {
    let wrapped = Err::<(), _>(leaf("root")).context("level one".to_string()).unwrap_err();
    assert_eq!(wrapped.get_context().as_str(), "level one");
}
