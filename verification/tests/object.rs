use lifec_registry::object::Object;

#[test]
fn test_object_parser() {
    // Test digests
    let lexed = Object::lex("sha256:b94d27b9934d3e8a52e52d7da7dabfac484efe37a5380ee9088f7ace2efcde9");
    assert_eq!(
        lexed,
        Some(Object::Digest(
            "sha256:b94d27b9934d3e8a52e52d7da7dabfac484efe37a5380ee9088f7ace2efcde9".to_string()
        ))
    );

    let lexed = Object::lex("sha256:c93e919e9985d48c6142530fa902745b76b28873488a64f9422302c620d170");
    assert_eq!(
        lexed,
        Some(Object::Digest(
            "sha256:c93e919e9985d48c6142530fa902745b76b28873488a64f9422302c620d170".to_string()
        ))
    );

    // Test tags
    let lexed = Object::lex("demo_.thats-really_cool");
    assert_eq!(
        lexed,
        Some(Object::Reference("demo_.thats-really_cool".to_string()))
    );

    // Test tags with numbers
    let lexed = Object::lex("9demo_.thats-reall8y_cool");
    assert_eq!(
        lexed,
        Some(Object::Reference("9demo_.thats-reall8y_cool".to_string()))
    );

    // Test tags with starting underscore
    let lexed = Object::lex("_9demo_.thats-reall8y_cool");
    assert_eq!(
        lexed,
        Some(Object::Reference("_9demo_.thats-reall8y_cool".to_string()))
    );
}

#[test]
fn object_lexer_edges() {
    assert_eq!(Object::lex(""), None);
    assert_eq!(Object::lex("   "), None);
    assert_eq!(Object::lex("a"), Some(Object::Reference("a".to_string())));
    assert_eq!(Object::lex("_ x"), Some(Object::Reference("_".to_string())));
    assert_eq!(Object::lex("  v1.0 rest"), Some(Object::Reference("v1.0".to_string())));
    assert_eq!(Object::lex("sha256:"), Some(Object::Reference("sha256".to_string())));
    assert_eq!(Object::lex("sha256:ABC"), Some(Object::Reference("sha256".to_string())));
    assert_eq!(Object::lex("sha512:ab xy"), Some(Object::Digest("sha512:ab xy".to_string())));
    assert_eq!(Object::lex(":tag"), Some(Object::Error));
    let long = "a".repeat(129);
    assert_eq!(Object::lex(&long), Some(Object::Error));
    let max = "a".repeat(128);
    assert_eq!(Object::lex(&max), Some(Object::Reference(max.clone())));
}

#[test]
fn object_renders_and_relexes() {
    let r = Object::Reference("latest".to_string());
    assert_eq!(r.text(), "latest");
    assert_eq!(r.suffix(), ":latest");
    let d = Object::Digest("sha256:abc".to_string());
    assert_eq!(d.text(), "sha256:abc");
    assert_eq!(d.suffix(), "@sha256:abc");
    for input in [" latest", "sha256:0123abcd", "v1.2-rc_3 trailing"] {
        let o = Object::lex(input).unwrap();
        assert_eq!(Object::lex(&o.text()), Some(o.duplicate()));
    }
}

#[test]
fn object_lexable() {
    assert!(lifec_registry::object::lexable("latest"));
    let tail = "x".repeat(63);
    assert!(lifec_registry::object::lexable(&format!("sha256:ab{tail}")));
    let tail = "x".repeat(64);
    assert!(!lifec_registry::object::lexable(&format!("sha256:ab{tail}")));
    let tail = "x".repeat(127);
    assert!(lifec_registry::object::lexable(&format!("sha512:ab{tail}")));
    let tail = "x".repeat(128);
    assert!(!lifec_registry::object::lexable(&format!("sha512:ab{tail}")));
}
