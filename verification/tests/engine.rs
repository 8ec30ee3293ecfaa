use skel::{
    contains_marker, engine_sources, is_valid_name, next_call, regular_files, render_all,
    rendered_entry, Answers, EngineCall, Entry, EntryKind, Listed, Template, TemplateContext,
    TemplateError,
};

fn entry(name: &str, bytes: &[u8]) -> Entry {
    Entry { name: name.to_string(), bytes: bytes.to_vec() }
}

fn context(document: &str) -> TemplateContext {
    TemplateContext::from_json(document.as_bytes()).unwrap()
}

fn describe(error: &tera::Error) -> String {
    let mut text = error.to_string();
    let mut cause = std::error::Error::source(error);
    while let Some(inner) = cause {
        text.push_str(": ");
        text.push_str(&inner.to_string());
        cause = inner.source();
    }
    text
}

fn ask_engine(template: &Template, context: &TemplateContext) -> Answers {
    let mut answers = Answers::new();
    let mut engine = tera::Tera::default();
    loop {
        match next_call(template, &answers) {
            None => return answers,
            Some(EngineCall::Load(sources)) => {
                let answer = engine.add_raw_templates(sources).map_err(|e| describe(&e));
                answers.record_load(answer);
            }
            Some(EngineCall::Render(name)) => {
                let answer = engine.render(name, context.data()).map_err(|e| describe(&e));
                answers.record_render(answer);
            }
        }
    }
}

fn render(template: &Template, context: &TemplateContext) -> Result<Vec<Entry>, TemplateError> {
    render_all(template, &ask_engine(template, context))
}

fn loaded(rendered: Vec<Result<String, String>>) -> Answers {
    Answers { loaded: Some(Ok(())), rendered }
}

fn failure(result: Result<Vec<Entry>, TemplateError>) -> (Option<String>, String) {
    match result.unwrap_err() {
        TemplateError::RenderFailed { file, reason } => (file, reason),
        other => panic!("unexpected error {:?}", other),
    }
}

#[test]
fn markers_are_found() {
    assert!(contains_marker(b"{{name}}"));
    assert!(contains_marker(b"a {% if x %}"));
    assert!(contains_marker(b"a {# note #}"));
    assert!(contains_marker(b"tail {{"));
    assert!(contains_marker(b"{{- name }}"));
}

#[test]
fn plain_bytes_hold_no_marker() {
    assert!(!contains_marker(b""));
    assert!(!contains_marker(b"{"));
    assert!(!contains_marker(b"a { b } c"));
    assert!(!contains_marker(b"fn main() { println!(\"{}\", 1); }"));
    assert!(!contains_marker(b"}}%}#}"));
    assert!(!contains_marker(b"ends with {"));
    assert!(!contains_marker(&[0xff, 0x7b, 0x00, 0x7b]));
}

#[test]
fn file_names() {
    assert!(is_valid_name("a.txt"));
    assert!(is_valid_name("..."));
    assert!(is_valid_name("na\u{ef}ve \u{1f600}"));
    assert!(!is_valid_name(""));
    assert!(!is_valid_name("a/b"));
    assert!(!is_valid_name("/"));
    assert!(!is_valid_name("dir/"));
}

#[test]
fn only_regular_files_are_selected() {
    let listing = vec![
        Listed { name: "b.txt".to_string(), kind: EntryKind::File },
        Listed { name: "sub".to_string(), kind: EntryKind::Directory },
        Listed { name: "a.txt".to_string(), kind: EntryKind::File },
        Listed { name: "pipe".to_string(), kind: EntryKind::Other },
    ];
    assert_eq!(regular_files(&listing), vec!["b.txt".to_string(), "a.txt".to_string()]);
    assert!(regular_files(&vec![]).is_empty());
}

#[test]
fn template_keeps_its_files_in_order() {
    let template = Template::new(vec![entry("b", b"2"), entry("a", b"1")]).unwrap();
    let entries = template.entries();
    assert_eq!(entries.len(), 2);
    assert_eq!(entries[0].name, "b");
    assert_eq!(entries[0].bytes, b"2");
    assert_eq!(entries[1].name, "a");
    assert_eq!(entries[1].bytes, b"1");
}

#[test]
fn template_refuses_a_name_twice() {
    assert!(Template::new(vec![entry("a", b"1"), entry("b", b"2"), entry("a", b"3")]).is_none());
}

#[test]
fn template_refuses_what_is_no_file_name() {
    assert!(Template::new(vec![entry("a/b", b"1")]).is_none());
    assert!(Template::new(vec![entry("a", b"1"), entry("", b"2")]).is_none());
}

#[test]
fn unlisted_directory_is_not_found() {
    assert!(matches!(Template::from_listing(None).unwrap_err(), TemplateError::NotFound));
}

#[test]
fn listing_that_is_no_template_is_not_found() {
    let listing = vec![entry("a", b"1"), entry("a", b"2")];
    assert!(matches!(Template::from_listing(Some(listing)).unwrap_err(), TemplateError::NotFound));
}

#[test]
fn listing_becomes_a_template() {
    let template = Template::from_listing(Some(vec![entry("a", b"1")])).unwrap();
    assert_eq!(template.entries()[0].name, "a");
    assert_eq!(template.entries()[0].bytes, b"1");
}

#[test]
fn engine_is_given_every_text_file() {
    let entries = vec![
        entry("a.txt", b"plain"),
        entry("b.bin", &[0xff, 0x00]),
        entry("c.txt", "gr\u{fc}n {{ x }}".as_bytes()),
        entry("d", b""),
    ];
    assert_eq!(
        engine_sources(&entries),
        vec![("a.txt", "plain"), ("c.txt", "gr\u{fc}n {{ x }}"), ("d", "")]
    );
    assert!(engine_sources(&vec![]).is_empty());
}

#[test]
fn plain_template_asks_nothing() {
    let template = Template::new(vec![entry("a", b"1"), entry("b", &[0xff])]).unwrap();
    assert!(next_call(&template, &Answers::new()).is_none());
    assert!(next_call(&Template::new(vec![]).unwrap(), &Answers::new()).is_none());
}

#[test]
fn undecodable_template_asks_nothing() {
    let template =
        Template::new(vec![entry("a", b"{{ x }}"), entry("b", &[0xff, 0x7b, 0x7b])]).unwrap();
    assert!(next_call(&template, &Answers::new()).is_none());
}

#[test]
fn calls_come_in_order() {
    let template = Template::new(vec![
        entry("a.txt", b"plain"),
        entry("b.txt", b"{{ x }}"),
        entry("c.bin", &[0xff]),
        entry("d.txt", b"{% if x %}y{% endif %}"),
    ])
    .unwrap();
    let mut answers = Answers::new();
    match next_call(&template, &answers) {
        Some(EngineCall::Load(sources)) => assert_eq!(
            sources,
            vec![
                ("a.txt", "plain"),
                ("b.txt", "{{ x }}"),
                ("d.txt", "{% if x %}y{% endif %}")
            ]
        ),
        other => panic!("unexpected call {:?}", other),
    }
    answers.record_load(Ok(()));
    assert_eq!(answers.loaded, Some(Ok(())));
    match next_call(&template, &answers) {
        Some(EngineCall::Render(name)) => assert_eq!(name, "b.txt"),
        other => panic!("unexpected call {:?}", other),
    }
    answers.record_render(Ok("1".to_string()));
    match next_call(&template, &answers) {
        Some(EngineCall::Render(name)) => assert_eq!(name, "d.txt"),
        other => panic!("unexpected call {:?}", other),
    }
    answers.record_render(Ok("y".to_string()));
    assert_eq!(answers.rendered, vec![Ok("1".to_string()), Ok("y".to_string())]);
    assert!(next_call(&template, &answers).is_none());
    answers.record_render(Ok("extra".to_string()));
    assert!(next_call(&template, &answers).is_none());
}

#[test]
fn no_call_after_a_refusal() {
    let template =
        Template::new(vec![entry("a.txt", b"{{ x }}"), entry("b.txt", b"{{ y }}")]).unwrap();
    let mut answers = Answers::new();
    answers.record_load(Err("bad".to_string()));
    assert_eq!(answers.loaded, Some(Err("bad".to_string())));
    assert!(next_call(&template, &answers).is_none());
    answers.record_load(Ok(()));
    answers.record_render(Err("no x".to_string()));
    assert!(next_call(&template, &answers).is_none());
}

#[test]
fn outputs_are_files_and_answers() {
    let template = Template::new(vec![
        entry("a.txt", b"plain"),
        entry("b.txt", b"{{ x }}"),
        entry("c.bin", &[0xff]),
        entry("d.txt", b"{{ y }}"),
    ])
    .unwrap();
    let answers = loaded(vec![Ok("gr\u{fc}n".to_string()), Ok("".to_string())]);
    let outputs = render_all(&template, &answers).unwrap();
    assert_eq!(outputs.len(), 4);
    assert_eq!((outputs[0].name.as_str(), outputs[0].bytes.as_slice()), ("a.txt", &b"plain"[..]));
    assert_eq!(
        (outputs[1].name.as_str(), outputs[1].bytes.as_slice()),
        ("b.txt", "gr\u{fc}n".as_bytes())
    );
    assert_eq!((outputs[2].name.as_str(), outputs[2].bytes.as_slice()), ("c.bin", &[0xffu8][..]));
    assert_eq!((outputs[3].name.as_str(), outputs[3].bytes.as_slice()), ("d.txt", &b""[..]));
}

#[test]
fn first_refusal_is_reported() {
    let template = Template::new(vec![
        entry("a.txt", b"{{ x }}"),
        entry("b.txt", b"{{ y }}"),
        entry("c.txt", b"{{ z }}"),
    ])
    .unwrap();
    let answers =
        loaded(vec![Ok("1".to_string()), Err("no y".to_string()), Err("no z".to_string())]);
    assert_eq!(
        failure(render_all(&template, &answers)),
        (Some("b.txt".to_string()), "no y".to_string())
    );
}

#[test]
fn missing_answers_are_failures() {
    let template =
        Template::new(vec![entry("a.txt", b"{{ x }}"), entry("b.txt", b"{{ y }}")]).unwrap();
    assert_eq!(
        failure(render_all(&template, &Answers::new())),
        (None, "the engine gave no answer".to_string())
    );
    assert_eq!(
        failure(render_all(&template, &loaded(vec![Ok("1".to_string())]))),
        (Some("b.txt".to_string()), "the engine gave no answer".to_string())
    );
}

#[test]
fn refused_load_is_reported() {
    let template = Template::new(vec![entry("a.txt", b"{{ x }}")]).unwrap();
    let answers = Answers { loaded: Some(Err("bad set".to_string())), rendered: vec![] };
    assert_eq!(failure(render_all(&template, &answers)), (None, "bad set".to_string()));
}

#[test]
fn template_may_be_empty() {
    let template = Template::new(vec![]).unwrap();
    assert!(template.entries().is_empty());
    assert!(render_all(&template, &Answers::new()).unwrap().is_empty());
}

#[test]
fn plain_files_render_to_themselves() {
    let binary: Vec<u8> = vec![0x00, 0xff, 0xfe, 0x7b, 0x7d, 0x80];
    let template = Template::new(vec![
        entry("a.txt", b"hello\nworld { } \n"),
        entry("b.bin", &binary),
        entry("c", b""),
    ])
    .unwrap();
    let bad = Answers { loaded: Some(Err("unused".to_string())), rendered: vec![] };
    for answers in [Answers::new(), bad] {
        let outputs = render_all(&template, &answers).unwrap();
        assert_eq!(outputs.len(), 3);
        assert_eq!(outputs[0].name, "a.txt");
        assert_eq!(outputs[0].bytes, b"hello\nworld { } \n");
        assert_eq!(outputs[1].name, "b.bin");
        assert_eq!(outputs[1].bytes, binary);
        assert_eq!(outputs[2].name, "c");
        assert_eq!(outputs[2].bytes, b"");
    }
}

#[test]
fn plain_files_are_kept_beside_rendered_ones() {
    let binary: Vec<u8> = vec![0xc3, 0x28, 0x00];
    let template =
        Template::new(vec![entry("a.bin", &binary), entry("b.txt", b"v={{ v }}")]).unwrap();
    let outputs = render(&template, &context("{\"v\": 7}")).unwrap();
    assert_eq!(outputs[0].bytes, binary);
    assert_eq!(outputs[1].bytes, b"v=7");
}

#[test]
fn marker_is_replaced_by_the_value() {
    let template = Template::new(vec![entry("a.txt", b"Hello {{name}}, bye.\n")]).unwrap();
    let outputs = render(&template, &context("{\"name\": \"x\"}")).unwrap();
    assert_eq!(outputs[0].name, "a.txt");
    assert_eq!(outputs[0].bytes, b"Hello x, bye.\n");
}

#[test]
fn rendered_text_is_written_as_utf8() {
    let template = Template::new(vec![entry("a.txt", "gr\u{fc}\u{df}e {{ who }}".as_bytes())])
        .unwrap();
    let outputs = render(&template, &context("{\"who\": \"\u{4e16}\u{754c}\"}")).unwrap();
    assert_eq!(outputs[0].bytes, "gr\u{fc}\u{df}e \u{4e16}\u{754c}".as_bytes());
}

#[test]
fn html_files_are_escaped() {
    let template = Template::new(vec![
        entry("a.html", b"<p>{{ v }}</p>"),
        entry("a.txt", b"<p>{{ v }}</p>"),
    ])
    .unwrap();
    let outputs = render(&template, &context("{\"v\": \"<b>\"}")).unwrap();
    assert_eq!(outputs[0].bytes, b"<p>&lt;b&gt;</p>");
    assert_eq!(outputs[1].bytes, b"<p><b></p>");
}

#[test]
fn a_file_may_include_another() {
    let template = Template::new(vec![
        entry("main.txt", b"[{% include \"part.txt\" %}]"),
        entry("part.txt", b"plain part"),
    ])
    .unwrap();
    let outputs = render(&template, &TemplateContext::empty()).unwrap();
    assert_eq!(outputs[0].bytes, b"[plain part]");
    assert_eq!(outputs[1].bytes, b"plain part");
}

#[test]
fn a_file_may_extend_a_later_one() {
    let template = Template::new(vec![
        entry("child.txt", b"{% extends \"base.txt\" %}{% block body %}child{% endblock %}"),
        entry("base.txt", b"<{% block body %}base{% endblock %}>"),
    ])
    .unwrap();
    let outputs = render(&template, &TemplateContext::empty()).unwrap();
    assert_eq!(outputs[0].bytes, b"<child>");
    assert_eq!(outputs[1].bytes, b"<base>");
}

#[test]
fn missing_key_fails_and_names_file_and_key() {
    let template = Template::new(vec![
        entry("ok.txt", b"fine"),
        entry("bad.txt", b"Hello {{missing}}"),
    ])
    .unwrap();
    let (file, reason) = failure(render(&template, &context("{\"name\": \"x\"}")));
    assert_eq!(file, Some("bad.txt".to_string()));
    assert!(reason.contains("missing"));
}

#[test]
fn first_failing_file_is_named() {
    let template = Template::new(vec![
        entry("a.txt", b"{{ a }}"),
        entry("b.txt", b"{{ nope }}"),
        entry("c.txt", b"{{ neither }}"),
    ])
    .unwrap();
    let (file, _) = failure(render(&template, &context("{\"a\": 1}")));
    assert_eq!(file, Some("b.txt".to_string()));
}

#[test]
fn marked_file_that_is_no_text_fails() {
    let template = Template::new(vec![
        entry("a.txt", b"{{ a }}"),
        entry("b.bin", &[0xff, 0x7b, 0x7b, 0x20, 0x61]),
        entry("c.bin", &[0xfe, 0x7b, 0x25]),
    ])
    .unwrap();
    let expected = (Some("b.bin".to_string()), "template is not valid UTF-8".to_string());
    assert_eq!(failure(render(&template, &context("{\"a\": 1}"))), expected);
    assert_eq!(failure(render_all(&template, &loaded(vec![Ok("1".to_string())]))), expected);
}

#[test]
fn malformed_template_fails_before_rendering() {
    let template = Template::new(vec![
        entry("a.txt", b"{{ a }}"),
        entry("b.txt", b"{% if %}"),
    ])
    .unwrap();
    let (file, reason) = failure(render(&template, &context("{\"a\": 1}")));
    assert_eq!(file, None);
    assert!(reason.contains("b.txt"));
}

#[test]
fn rendered_entry_keeps_the_name() {
    let source = entry("a.txt", b"{{ x }}");
    let output = rendered_entry(&source, Ok("gr\u{fc}n".to_string())).unwrap();
    assert_eq!(output.name, "a.txt");
    assert_eq!(output.bytes, "gr\u{fc}n".as_bytes());
}

#[test]
fn rendered_entry_names_the_file_that_failed() {
    let source = entry("a.txt", b"{{ x }}");
    match rendered_entry(&source, Err("no x".to_string())).unwrap_err() {
        TemplateError::RenderFailed { file, reason } => {
            assert_eq!(file, Some("a.txt".to_string()));
            assert_eq!(reason, "no x");
        }
        other => panic!("unexpected error {:?}", other),
    }
}

#[test]
fn template_error_messages() {
    assert_eq!(TemplateError::NotFound.message(), "template directory not found");
    let error = TemplateError::RenderFailed {
        file: Some("a.txt".to_string()),
        reason: "no x".to_string(),
    };
    assert_eq!(error.message(), "failed to render a.txt: no x");
    let error = TemplateError::RenderFailed { file: None, reason: "bad set".to_string() };
    assert_eq!(error.message(), "failed to load templates: bad set");
}
