use ferris::commons::chassis::{
    service_error, MutationResult, QueryError, QueryResult, ValidationError,
};
use ferris::commons::mail::{Mail, Personalizations};
use ferris::models::abstract_tasks::AbstractTask;
use ferris::models::ferror::Ferror;

#[test]
fn validation_errors_keep_field_and_message() {
    let e = ValidationError::new("name", "Name is a must.");
    assert_eq!("name", e.field.as_str());
    assert_eq!("Name is a must.", e.message.as_str());
}

#[test]
fn query_results_expose_rows_or_the_error() {
    let ok: QueryResult<Vec<AbstractTask>> = QueryResult(Ok(vec![AbstractTask {
        id: String::from("t-1"),
        name: String::from("Drill"),
        coach_id: String::from("c-1"),
    }]));
    assert!(ok.error().is_none());
    assert_eq!(1, ok.abstract_tasks().unwrap().len());
    assert_eq!("Drill", ok.abstract_tasks().unwrap()[0].name.as_str());

    let failed: QueryResult<Vec<AbstractTask>> =
        QueryResult(Err(QueryError { message: String::from("gone") }));
    assert!(failed.abstract_tasks().is_none());
    assert_eq!("gone", failed.error().unwrap().message.as_str());
}

#[test]
fn mutation_results_expose_the_value_or_the_checks() {
    let ok: MutationResult<String> = MutationResult(Ok(String::from("5 rows")));
    assert!(ok.errors().is_none());
    assert_eq!("5 rows", ok.rows().unwrap().as_str());

    let failed: MutationResult<String> = service_error("store is closed");
    assert!(failed.rows().is_none());
    let errors = failed.errors().unwrap();
    assert_eq!(1, errors.len());
    assert_eq!("service", errors[0].field.as_str());
    assert_eq!("store is closed", errors[0].message.as_str());
}

#[test]
fn ferror_collects_failed_checks() {
    let mut f = Ferror::new();
    assert!(f.is_empty());
    f.push("rule", "too long");
    f.push("rule", "too short");
    assert!(!f.is_empty());
    assert_eq!(2, f.errors.len());
    assert_eq!("too long", f.errors[0].message.as_str());
}

#[test]
fn mail_payload_carries_every_address_once() {
    let to = vec![String::from("a@x"), String::from("b@x")];
    let cc = vec![String::from("c@x")];
    let bcc: Vec<String> = Vec::new();
    let mail = Mail::new("sender@x", &to, &cc, &bcc, "Hello", "<p>Hi</p>");
    assert_eq!("sender@x", mail.from.email.as_str());
    assert_eq!("Hello", mail.subject.as_str());
    assert_eq!("text/html", mail.content.media_type.as_str());
    assert_eq!("<p>Hi</p>", mail.content.value.as_str());
    let tos = mail.personalizations.to.as_ref().unwrap();
    assert_eq!(2, tos.len());
    assert_eq!("a@x", tos[0].email.as_str());
    assert_eq!("b@x", tos[1].email.as_str());
    assert_eq!(1, mail.personalizations.cc.as_ref().unwrap().len());
    assert!(mail.personalizations.bcc.is_none());
    assert!(Personalizations::as_personal_map(&bcc).is_none());
}
