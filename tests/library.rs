use web_template::error::{validation_message, ServerError, BAD_REQUEST};
use web_template::messages::{summarize_messages, FlashMessage, MessageLevel};
use web_template::pages::{
    about_page, content_page, csrf_page, csrf_verdict, greeting, home_page, validation_page,
    ContextValue, PageContext,
};
use web_template::session::{visit_counter, COUNTER_KEY};
use web_template::text::{decimal_string, flatten_line_breaks};
use web_template::validation::{NameInput, Validate, ValidatedForm};

fn text_of(page: &PageContext, index: usize) -> (String, String) {
    let (key, value) = &page.entries[index];
    match value {
        ContextValue::Text(t) => (key.clone(), t.clone()),
        ContextValue::List(_) => panic!("expected a text entry"),
    }
}

fn name(s: &str) -> NameInput {
    NameInput { name: s.to_string() }
}

#[test]
fn decimal_of_small_and_large_numbers() {
    assert_eq!(decimal_string(0), "0");
    assert_eq!(decimal_string(7), "7");
    assert_eq!(decimal_string(10), "10");
    assert_eq!(decimal_string(1234), "1234");
    assert_eq!(decimal_string(usize::MAX), usize::MAX.to_string());
}

#[test]
fn line_breaks_become_commas() {
    assert_eq!(flatten_line_breaks(""), "");
    assert_eq!(flatten_line_breaks("no breaks"), "no breaks");
    assert_eq!(flatten_line_breaks("a\nb\n"), "a, b, ");
    assert_eq!(flatten_line_breaks("\n\n"), ", , ");
    assert_eq!(flatten_line_breaks("é\nü"), "é, ü");
}

#[test]
fn validation_message_frames_flattened_text() {
    assert_eq!(
        validation_message("name: too short\nemail: missing"),
        "Input validation error: [name: too short, email: missing]"
    );
    assert_eq!(validation_message(""), "Input validation error: []");
}

#[test]
fn name_of_two_characters_is_valid() {
    assert!(name("Al").validate().is_ok());
    assert!(name("Alice").validate().is_ok());
}

#[test]
fn name_shorter_than_two_characters_is_invalid() {
    assert!(name("").validate().is_err());
    assert!(name("A").validate().is_err());
}

#[test]
fn name_length_counts_characters_not_bytes() {
    assert!(name("é").validate().is_err());
    assert!(name("éa").validate().is_ok());
}

#[test]
fn validation_error_names_the_field() {
    let errors = name("x").validate().unwrap_err();
    let fields = errors.field_errors();
    let list = fields.get("name").expect("the name field has an error");
    assert_eq!(list.len(), 1);
    assert_eq!(list[0].code, "length");
    assert_eq!(list[0].message.as_deref(), Some("Can not be empty"));
    assert_eq!(list[0].params.get("min").and_then(|v| v.as_u64()), Some(2));
    assert_eq!(list[0].params.get("value").and_then(|v| v.as_str()), Some("x"));
}

#[test]
fn validation_error_response_is_bad_request() {
    let errors = name("").validate().unwrap_err();
    let response = ServerError::ValidationError(errors).into_response();
    assert_eq!(response.status, BAD_REQUEST);
    assert_eq!(response.status, 400);
    assert_eq!(response.body, "Input validation error: [name: Can not be empty]");
}

#[test]
fn validated_form_accepts_valid_value() {
    match ValidatedForm::from_decoded(Ok(name("Bob"))) {
        Ok(ValidatedForm(input)) => assert_eq!(input.name, "Bob"),
        Err(_) => panic!("a valid name must be accepted"),
    }
}

#[test]
fn validated_form_rejects_invalid_value() {
    match ValidatedForm::from_decoded(Ok(name("B"))) {
        Err(ServerError::ValidationError(_)) => {}
        _ => panic!("a short name must be refused by validation"),
    }
}

#[test]
fn no_messages_gives_notice() {
    assert_eq!(summarize_messages(&vec![]), "No messages yet!");
}

#[test]
fn messages_are_joined_in_order() {
    let messages = vec![
        FlashMessage { level: MessageLevel::Info, text: "Hello, world!".to_string() },
        FlashMessage { level: MessageLevel::Debug, text: "This is a debug message.".to_string() },
    ];
    assert_eq!(
        summarize_messages(&messages),
        "Info: Hello, world!, Debug: This is a debug message."
    );
}

#[test]
fn single_message_with_empty_text() {
    let messages = vec![FlashMessage { level: MessageLevel::Warning, text: String::new() }];
    assert_eq!(summarize_messages(&messages), "Warning: ");
}

#[test]
fn level_names() {
    assert_eq!(MessageLevel::Debug.name(), "Debug");
    assert_eq!(MessageLevel::Info.name(), "Info");
    assert_eq!(MessageLevel::Success.name(), "Success");
    assert_eq!(MessageLevel::Warning.name(), "Warning");
    assert_eq!(MessageLevel::Error.name(), "Error");
}

#[test]
fn first_visit_reports_zero() {
    let visit = visit_counter(None);
    assert_eq!(visit.next, 1);
    assert_eq!(visit.body, "Current count: 0");
    assert_eq!(COUNTER_KEY, "counter");
}

#[test]
fn later_visit_reports_stored_count() {
    let visit = visit_counter(Some(41));
    assert_eq!(visit.next, 42);
    assert_eq!(visit.body, "Current count: 41");
}

#[test]
fn largest_countable_visit() {
    let visit = visit_counter(Some(usize::MAX - 1));
    assert_eq!(visit.next, usize::MAX);
    assert_eq!(visit.body, format!("Current count: {}", usize::MAX - 1));
}

#[test]
fn home_page_context() {
    let page = home_page();
    assert_eq!(page.template, "home");
    assert_eq!(page.entries.len(), 2);
    assert_eq!(text_of(&page, 0), ("title".to_string(), "Home".to_string()));
    assert_eq!(text_of(&page, 1), ("welcome_text".to_string(), "Hello World!".to_string()));
}

#[test]
fn content_page_context() {
    let page = content_page();
    assert_eq!(page.template, "content");
    assert_eq!(text_of(&page, 0), ("title".to_string(), "Content".to_string()));
    let (key, value) = &page.entries[1];
    assert_eq!(key, "entries");
    match value {
        ContextValue::List(items) => assert_eq!(items, &vec!["Data 1", "Data 2", "Data 3"]),
        ContextValue::Text(_) => panic!("expected a list"),
    }
}

#[test]
fn about_page_context() {
    let page = about_page();
    assert_eq!(page.template, "about");
    assert_eq!(text_of(&page, 0), ("title".to_string(), "About".to_string()));
    assert_eq!(
        text_of(&page, 1).1,
        "Simple demonstration layout for an axum project with minijinja as templating engine."
    );
}

#[test]
fn validation_page_has_no_values() {
    let page = validation_page();
    assert_eq!(page.template, "validation");
    assert!(page.entries.is_empty());
}

#[test]
fn csrf_page_carries_token() {
    let page = csrf_page("abc123");
    assert_eq!(page.template, "csrf");
    assert_eq!(text_of(&page, 0), ("title".to_string(), "Csrf".to_string()));
    assert_eq!(text_of(&page, 1), ("authenticity_token".to_string(), "abc123".to_string()));
}

#[test]
fn greeting_wraps_name() {
    assert_eq!(greeting("Ana"), "<h1>Hello, Ana!</h1>");
    assert_eq!(greeting(""), "<h1>Hello, !</h1>");
}

#[test]
fn csrf_verdicts() {
    assert_eq!(csrf_verdict(true), "Token is Valid lets do stuff!");
    assert_eq!(csrf_verdict(false), "Token is invalid");
}

fn content_type_rejection() -> axum::extract::rejection::FormRejection {
    axum::extract::rejection::FormRejection::InvalidFormContentType(
        axum::extract::rejection::InvalidFormContentType::default(),
    )
}

#[test]
fn undecodable_form_is_rejected_as_such() {
    match ValidatedForm::<NameInput>::from_decoded(Err(content_type_rejection())) {
        Err(ServerError::AxumFormRejection(_)) => {}
        _ => panic!("a form that did not decode must be rejected"),
    }
}

#[test]
fn rejection_response_sends_rejection_message() {
    let response = ServerError::AxumFormRejection(content_type_rejection()).into_response();
    assert_eq!(response.status, 400);
    assert_eq!(
        response.body,
        "Form requests must have `Content-Type: application/x-www-form-urlencoded`"
    );
}

#[test]
fn refused_form_carries_the_field_errors() {
    match ValidatedForm::from_decoded(Ok(name("?"))) {
        Err(ServerError::ValidationError(errors)) => {
            let fields = errors.field_errors();
            assert_eq!(fields.len(), 1);
            assert_eq!(fields["name"][0].message.as_deref(), Some("Can not be empty"));
        }
        _ => panic!("a short name must be refused with its errors"),
    }
}
