use skel::{
    context_path, load_context, next_call, render_all, Answers, ContextError, ContextSource,
    EngineCall, Entry, Template, TemplateContext,
};

fn one_file(name: &str, body: &str) -> Template {
    Template::new(vec![Entry { name: name.to_string(), bytes: body.as_bytes().to_vec() }])
        .unwrap()
}

fn ask_engine(template: &Template, context: &TemplateContext) -> Answers {
    let mut answers = Answers::new();
    let mut engine = tera::Tera::default();
    loop {
        match next_call(template, &answers) {
            None => return answers,
            Some(EngineCall::Load(sources)) => {
                let answer = engine.add_raw_templates(sources).map_err(|e| e.to_string());
                answers.record_load(answer);
            }
            Some(EngineCall::Render(name)) => {
                let answer = engine.render(name, context.data()).map_err(|e| e.to_string());
                answers.record_render(answer);
            }
        }
    }
}

fn rendered(template: &Template, context: &TemplateContext) -> String {
    let outputs = render_all(template, &ask_engine(template, context)).unwrap();
    assert_eq!(outputs.len(), 1);
    String::from_utf8(outputs[0].bytes.clone()).unwrap()
}

#[test]
fn no_context_file_no_path() {
    assert_eq!(context_path(None), None);
}

#[test]
fn bare_context_flag_means_the_default_path() {
    assert_eq!(context_path(Some(None)), Some("./context.json".to_string()));
}

#[test]
fn context_flag_with_a_path_means_that_path() {
    assert_eq!(context_path(Some(Some("vars/a.json".to_string()))), Some("vars/a.json".to_string()));
}

#[test]
fn context_not_requested_is_empty() {
    let context = load_context(&ContextSource::NotRequested).unwrap();
    assert_eq!(context.data(), &tera::Context::new());
    let template = one_file("a.txt", "{% if name is defined %}set{% else %}unset{% endif %}");
    assert_eq!(rendered(&template, &context), "unset");
}

#[test]
fn empty_context_has_no_entries() {
    assert_eq!(TemplateContext::empty().data(), &tera::Context::new());
    let template = one_file("a.txt", "{% if name is defined %}set{% else %}unset{% endif %}");
    assert_eq!(rendered(&template, &TemplateContext::empty()), "unset");
}

#[test]
fn unreadable_context_is_not_found() {
    assert_eq!(load_context(&ContextSource::Unreadable).unwrap_err(), ContextError::NotFound);
}

#[test]
fn malformed_context_is_invalid() {
    let source = ContextSource::Document(b"{\"name\": ".to_vec());
    assert_eq!(load_context(&source).unwrap_err(), ContextError::Invalid);
    let source = ContextSource::Document(b"".to_vec());
    assert_eq!(load_context(&source).unwrap_err(), ContextError::Invalid);
    let source = ContextSource::Document(b"{\"a\": 1} trailing".to_vec());
    assert_eq!(load_context(&source).unwrap_err(), ContextError::Invalid);
}

#[test]
fn context_that_is_no_object_is_invalid() {
    for document in ["[1, 2]", "\"name\"", "3", "null", "true"] {
        let source = ContextSource::Document(document.as_bytes().to_vec());
        assert_eq!(load_context(&source).unwrap_err(), ContextError::Invalid);
        assert_eq!(
            TemplateContext::from_json(document.as_bytes()).unwrap_err(),
            ContextError::Invalid
        );
    }
}

#[test]
fn context_document_gives_its_entries() {
    let source = ContextSource::Document(b"{\"name\": \"x\", \"n\": 3}".to_vec());
    let context = load_context(&source).unwrap();
    let mut expected = tera::Context::new();
    expected.insert("name", "x");
    expected.insert("n", &3);
    assert_eq!(context.data(), &expected);
    let template = one_file("a.txt", "{{ name }}-{{ n }}");
    assert_eq!(rendered(&template, &context), "x-3");
}

#[test]
fn context_holds_nested_values() {
    let document = b"{\"user\": {\"name\": \"ada\"}, \"tags\": [\"a\", \"b\"]}";
    let context = TemplateContext::from_json(document).unwrap();
    let template = one_file("a.txt", "{{ user.name }}:{% for t in tags %}{{ t }}{% endfor %}");
    assert_eq!(rendered(&template, &context), "ada:ab");
}

#[test]
fn empty_object_is_an_empty_context() {
    let context = TemplateContext::from_json(b"{}").unwrap();
    assert_eq!(context.data(), &tera::Context::new());
}

#[test]
fn context_error_messages() {
    assert_eq!(ContextError::NotFound.message(), "context file not found");
    assert_eq!(ContextError::Invalid.message(), "context file is not a JSON object");
}
